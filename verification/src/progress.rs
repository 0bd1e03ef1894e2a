//! Progress of a transfer: the bytes that the engine reports as written are added up, and the
//! transfer counts as finished from the report on which the sum equals the length of the image.

use vstd::prelude::*;

verus! {

/// The progress of one transfer.
#[derive(Debug, Clone, Copy, PartialEq, Eq)]
pub struct Progress {
    /// Length of the image.
    pub length: u32,
    /// Number of bytes reported so far; it stays at the largest value once it gets there.
    pub position: u64,
    /// Whether some report brought the position to the length.
    pub finished: bool,
}

/// The sum of `counts`.
pub open spec fn total(counts: Seq<usize>) -> nat
    decreases counts.len(),
{
    if counts.len() == 0 {
        0
    } else {
        total(counts.drop_last()) + counts.last() as nat
    }
}

impl Progress {
    /// The progress of a transfer of `length` bytes before any report.
    pub open spec fn fresh(length: u32) -> Progress {
        Progress { length, position: 0, finished: false }
    }

    /// The progress after a report of `count` bytes.
    pub open spec fn moved(self, count: usize) -> Progress {
        let position = if self.position + count > u64::MAX {
            u64::MAX
        } else {
            (self.position + count) as u64
        };
        Progress { position, finished: self.finished || position == self.length, ..self }
    }

    /// Whether a report of `count` bytes is the one that finishes the transfer.
    pub open spec fn completes(self, count: usize) -> bool {
        !self.finished && self.moved(count).finished
    }

    /// The progress after the reports `counts`, in order.
    pub open spec fn fed(self, counts: Seq<usize>) -> Progress
        decreases counts.len(),
    {
        if counts.len() == 0 {
            self
        } else {
            self.fed(counts.drop_last()).moved(counts.last())
        }
    }

    /// How many of the reports `counts` finish the transfer.
    pub open spec fn completions(self, counts: Seq<usize>) -> nat
        decreases counts.len(),
    {
        if counts.len() == 0 {
            0
        } else {
            self.completions(counts.drop_last()) + if self.fed(counts.drop_last()).completes(
                counts.last(),
            ) {
                1nat
            } else {
                0nat
            }
        }
    }

    /// Starts the progress of a transfer of `length` bytes.
    pub fn new(length: u32) -> (res: Progress)
        ensures
            res == Progress::fresh(length),
    {
        Progress { length, position: 0, finished: false }
    }

    /// Takes a report of `count` bytes, and says whether it finishes the transfer.
    pub fn advance(&mut self, count: usize) -> (completed: bool)
        ensures
            *final(self) == old(self).moved(count),
            completed == old(self).completes(count),
    {
        let count = count as u64;
        self.position = if count > u64::MAX - self.position {
            u64::MAX
        } else {
            self.position + count
        };
        let reached = self.position == self.length as u64;
        let completed = !self.finished && reached;
        self.finished = self.finished || reached;
        completed
    }

    /// Whether the transfer has finished.
    pub fn is_finished(&self) -> (res: bool)
        ensures
            res == self.finished,
    {
        self.finished
    }
}

/// A sum never shrinks when more is added to it.
pub proof fn lemma_total_grows(counts: Seq<usize>, k: int)
    requires
        0 <= k <= counts.len(),
    ensures
        total(counts.take(k)) <= total(counts),
    decreases counts.len() - k,
{
    if k == counts.len() {
        assert(counts.take(k) =~= counts);
    } else {
        lemma_total_grows(counts, k + 1);
        assert(counts.take(k + 1).drop_last() =~= counts.take(k));
    }
}

/// While the reports add up to no more than the length, the position is their sum, the
/// transfer is finished only if the sum is the length, and at most one report finished it.
pub proof fn lemma_progress_tracks(length: u32, counts: Seq<usize>)
    requires
        total(counts) <= length,
    ensures
        Progress::fresh(length).fed(counts).position == total(counts),
        Progress::fresh(length).fed(counts).length == length,
        Progress::fresh(length).fed(counts).finished ==> total(counts) == length,
        counts.len() > 0 && total(counts) == length ==> Progress::fresh(length).fed(
            counts,
        ).finished,
        Progress::fresh(length).completions(counts) == if Progress::fresh(length).fed(
            counts,
        ).finished {
            1nat
        } else {
            0nat
        },
    decreases counts.len(),
{
    if counts.len() > 0 {
        lemma_progress_tracks(length, counts.drop_last());
    }
}

/// Reports that add up to the length of the image finish the transfer, exactly one of them
/// is the finishing one, and at no point before the sum has reached the length does the
/// transfer count as finished.
pub proof fn lemma_completion_reported_once(length: u32, counts: Seq<usize>)
    requires
        counts.len() > 0,
        total(counts) == length,
    ensures
        Progress::fresh(length).fed(counts).finished,
        Progress::fresh(length).completions(counts) == 1,
        forall|k: int|
            0 <= k <= counts.len() && (#[trigger] Progress::fresh(length).fed(
                counts.take(k),
            )).finished ==> total(counts.take(k)) == length,
{
    lemma_progress_tracks(length, counts);
    assert forall|k: int|
        0 <= k <= counts.len() && (#[trigger] Progress::fresh(length).fed(
            counts.take(k),
        )).finished implies total(counts.take(k)) == length by {
        lemma_total_grows(counts, k);
        lemma_progress_tracks(length, counts.take(k));
    }
}

} // verus!
