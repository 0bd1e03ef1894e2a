//! Sequencing of a download: waiting for the device, the transfer with its progress, and the
//! detach and reset that may follow. A machine without I/O names the next command; the caller
//! carries it out and reports what happened.

use vstd::prelude::*;
use crate::error::{Error, TransportError};
use crate::progress::{lemma_progress_tracks, total, Progress};

verus! {

/// Milliseconds between two attempts to open a device that is waited for.
pub const POLL_INTERVAL_MS: u64 = 250;

/// Largest number of bytes that one download can carry.
pub const MAX_TRANSFER_LENGTH: u64 = 0xffff_ffff;

/// What the caller asked for.
#[derive(Debug, Clone, Copy, PartialEq, Eq)]
pub struct Options {
    /// Keep trying while no matching device is on the bus.
    pub wait: bool,
    /// Detach and reset the device after the transfer.
    pub reset: bool,
    /// Start address to download to, in place of the one that the device names.
    pub override_address: Option<u32>,
}

/// Why a transfer failed.
#[derive(Debug, Clone, Copy, PartialEq, Eq)]
pub enum TransferError {
    /// The transport failed.
    Transport(TransportError),
    /// The protocol engine failed for another reason, which the caller holds.
    Engine,
}

/// Why a download failed.
#[derive(Debug, PartialEq, Eq)]
pub enum Failure {
    /// The binding refused: the image is too large, the device could not be opened, or the
    /// bus reset failed.
    Binding(Error),
    /// The transfer failed.
    Transfer(TransferError),
}

impl Clone for Failure {
    fn clone(&self) -> (res: Failure)
        ensures
            res == *self,
    {
        match self {
            Failure::Binding(e) => Failure::Binding(e.clone()),
            Failure::Transfer(e) => Failure::Transfer(*e),
        }
    }
}

/// How a download ended.
#[derive(Debug, PartialEq, Eq)]
pub enum Verdict {
    /// The image is on the device.
    Completed,
    /// The transport failed after the whole image had been accepted: the device is taken to
    /// have reset itself, and the download to have succeeded.
    SelfReset,
    /// The download failed.
    Failed(Failure),
}

impl Clone for Verdict {
    fn clone(&self) -> (res: Verdict)
        ensures
            res == *self,
    {
        match self {
            Verdict::Completed => Verdict::Completed,
            Verdict::SelfReset => Verdict::SelfReset,
            Verdict::Failed(failure) => Verdict::Failed(failure.clone()),
        }
    }
}

/// What the caller is to do next.
#[derive(Debug, Clone, PartialEq, Eq)]
pub enum Command {
    /// Try to open the device.
    Open,
    /// Signal that the download is alive, sleep for this many milliseconds, and try to open
    /// the device again.
    Wait { millis: u64 },
    /// Set the start address, where one is given, then download `length` bytes.
    Transfer { length: u32, address: Option<u32> },
    /// Send a detach request.
    Detach,
    /// Reset the device on the bus.
    BusReset,
    /// Stop: the download has ended.
    Finish(Verdict),
}

/// What happened when the caller carried out a command.
#[derive(Debug, PartialEq, Eq)]
pub enum Event {
    /// The device was opened and bound.
    Opened,
    /// The device could not be opened.
    OpenFailed(Error),
    /// The engine reported that `count` more bytes were written.
    Written { count: usize },
    /// The transfer returned without an error.
    Transferred,
    /// The transfer returned this error.
    TransferFailed(TransferError),
    /// The detach request was sent; `ok` says whether the device acknowledged it.
    Detached { ok: bool },
    /// The bus reset returned.
    ResetDone(Result<(), TransportError>),
}

/// Where a download stands.
#[derive(Debug, Clone, PartialEq, Eq)]
pub enum Phase {
    /// The device is to be opened; `waited` says whether an attempt has failed already.
    Opening { waited: bool },
    /// The transfer is under way.
    Transferring,
    /// A detach request is under way.
    Detaching,
    /// A bus reset is under way.
    Resetting,
    /// The download has ended.
    Finished(Verdict),
}

/// A download in progress.
#[derive(Debug, Clone, PartialEq, Eq)]
pub struct Download {
    /// What the caller asked for.
    pub options: Options,
    /// The length of the image and how much of it has been reported as written.
    pub progress: Progress,
    /// Where the download stands.
    pub phase: Phase,
}

impl Download {
    /// The download in another phase.
    pub open spec fn in_phase(self, phase: Phase) -> Download {
        Download { phase, ..self }
    }

    /// The download at its end.
    pub open spec fn ended(self, verdict: Verdict) -> Download {
        self.in_phase(Phase::Finished(verdict))
    }

    /// The download of an image of `file_length` bytes, before its first command. An image
    /// longer than a transfer length can express ends it at once.
    pub open spec fn started(file_length: u64, options: Options) -> Download {
        if file_length <= MAX_TRANSFER_LENGTH {
            Download {
                options,
                progress: Progress::fresh(file_length as u32),
                phase: Phase::Opening { waited: false },
            }
        } else {
            Download {
                options,
                progress: Progress::fresh(0),
                phase: Phase::Finished(Verdict::Failed(Failure::Binding(Error::FileTooLarge))),
            }
        }
    }

    /// The command that the download waits on.
    pub open spec fn pending(self) -> Command {
        match self.phase {
            Phase::Opening { waited: false } => Command::Open,
            Phase::Opening { waited: true } => Command::Wait { millis: POLL_INTERVAL_MS },
            Phase::Transferring => Command::Transfer {
                length: self.progress.length,
                address: self.options.override_address,
            },
            Phase::Detaching => Command::Detach,
            Phase::Resetting => Command::BusReset,
            Phase::Finished(verdict) => Command::Finish(verdict),
        }
    }

    /// The download after `event`. Only a missing device is waited for, and only where the
    /// caller asked for it; any other error on opening ends the download. Bytes reported
    /// during the transfer are added to the progress. A transport error at the end of a
    /// transfer counts as success where the progress had finished, and as failure where it had
    /// not. A detach is followed by a reset whether or not it was acknowledged. An event that
    /// does not belong to the pending command changes nothing.
    pub open spec fn next(self, event: Event) -> Download {
        match (self.phase, event) {
            (Phase::Opening { .. }, Event::Opened) => self.in_phase(Phase::Transferring),
            (Phase::Opening { .. }, Event::OpenFailed(e)) => {
                if self.options.wait && e == Error::CouldNotOpenDevice {
                    self.in_phase(Phase::Opening { waited: true })
                } else {
                    self.ended(Verdict::Failed(Failure::Binding(e)))
                }
            },
            (Phase::Transferring, Event::Written { count }) => Download {
                progress: self.progress.moved(count),
                ..self
            },
            (Phase::Transferring, Event::Transferred) => {
                if self.options.reset {
                    self.in_phase(Phase::Detaching)
                } else {
                    self.ended(Verdict::Completed)
                }
            },
            (Phase::Transferring, Event::TransferFailed(error)) => {
                if self.progress.finished && error is Transport {
                    self.ended(Verdict::SelfReset)
                } else {
                    self.ended(Verdict::Failed(Failure::Transfer(error)))
                }
            },
            (Phase::Detaching, Event::Detached { .. }) => self.in_phase(Phase::Resetting),
            (Phase::Resetting, Event::ResetDone(Ok(()))) => self.ended(Verdict::Completed),
            (Phase::Resetting, Event::ResetDone(Err(e))) => self.ended(
                Verdict::Failed(Failure::Binding(Error::LibUsb(e))),
            ),
            _ => self,
        }
    }

    /// The download after `n` attempts to open the device that all found none.
    pub open spec fn after_misses(self, n: nat) -> Download
        decreases n,
    {
        if n == 0 {
            self
        } else {
            self.after_misses((n - 1) as nat).next(Event::OpenFailed(Error::CouldNotOpenDevice))
        }
    }

    /// The download after the engine reported these numbers of bytes as written, in order.
    pub open spec fn after_reports(self, counts: Seq<usize>) -> Download
        decreases counts.len(),
    {
        if counts.len() == 0 {
            self
        } else {
            self.after_reports(counts.drop_last()).next(Event::Written { count: counts.last() })
        }
    }

    /// Starts the download of an image of `file_length` bytes.
    pub fn start(file_length: u64, options: Options) -> (res: Download)
        ensures
            res == Download::started(file_length, options),
            file_length > MAX_TRANSFER_LENGTH <==> res.pending() == Command::Finish(
                Verdict::Failed(Failure::Binding(Error::FileTooLarge)),
            ),
            file_length <= MAX_TRANSFER_LENGTH <==> res.pending() == Command::Open,
    {
        if file_length <= MAX_TRANSFER_LENGTH {
            Download {
                options,
                progress: Progress::new(file_length as u32),
                phase: Phase::Opening { waited: false },
            }
        } else {
            Download {
                options,
                progress: Progress::new(0),
                phase: Phase::Finished(Verdict::Failed(Failure::Binding(Error::FileTooLarge))),
            }
        }
    }

    /// The command to carry out next.
    pub fn command(&self) -> (res: Command)
        ensures
            res == self.pending(),
    {
        match &self.phase {
            Phase::Opening { waited } => if *waited {
                Command::Wait { millis: POLL_INTERVAL_MS }
            } else {
                Command::Open
            },
            Phase::Transferring => Command::Transfer {
                length: self.progress.length,
                address: self.options.override_address,
            },
            Phase::Detaching => Command::Detach,
            Phase::Resetting => Command::BusReset,
            Phase::Finished(verdict) => Command::Finish(verdict.clone()),
        }
    }

    /// Takes what happened on the pending command. The result says whether the event was
    /// the report of written bytes that finished the progress.
    pub fn on(&mut self, event: Event) -> (completed: bool)
        ensures
            *final(self) == old(self).next(event),
            completed == (!old(self).progress.finished && final(self).progress.finished),
    {
        match event {
            Event::Opened => {
                if let Phase::Opening { .. } = &self.phase {
                    self.phase = Phase::Transferring;
                }
            },
            Event::OpenFailed(e) => {
                if let Phase::Opening { .. } = &self.phase {
                    let missing = match &e {
                        Error::CouldNotOpenDevice => true,
                        _ => false,
                    };
                    if self.options.wait && missing {
                        self.phase = Phase::Opening { waited: true };
                    } else {
                        self.phase = Phase::Finished(Verdict::Failed(Failure::Binding(e)));
                    }
                }
            },
            Event::Written { count } => {
                if let Phase::Transferring = &self.phase {
                    return self.progress.advance(count);
                }
            },
            Event::Transferred => {
                if let Phase::Transferring = &self.phase {
                    if self.options.reset {
                        self.phase = Phase::Detaching;
                    } else {
                        self.phase = Phase::Finished(Verdict::Completed);
                    }
                }
            },
            Event::TransferFailed(error) => {
                if let Phase::Transferring = &self.phase {
                    let transport = match error {
                        TransferError::Transport(_) => true,
                        TransferError::Engine => false,
                    };
                    if self.progress.finished && transport {
                        self.phase = Phase::Finished(Verdict::SelfReset);
                    } else {
                        self.phase = Phase::Finished(Verdict::Failed(Failure::Transfer(error)));
                    }
                }
            },
            Event::Detached { .. } => {
                if let Phase::Detaching = &self.phase {
                    self.phase = Phase::Resetting;
                }
            },
            Event::ResetDone(outcome) => {
                if let Phase::Resetting = &self.phase {
                    self.phase = match outcome {
                        Ok(()) => Phase::Finished(Verdict::Completed),
                        Err(e) => Phase::Finished(
                            Verdict::Failed(Failure::Binding(Error::LibUsb(e))),
                        ),
                    };
                }
            },
        }
        false
    }
}

/// While the device is waited for and not found, the download keeps polling at the fixed
/// interval, however often that happens. It leaves the polling only on success, which starts
/// the transfer, or on an error of another kind, which ends it with that error.
pub proof fn lemma_wait_polls(download: Download, n: nat, other: Error)
    requires
        download.phase is Opening,
        download.options.wait,
        n > 0,
        other != Error::CouldNotOpenDevice,
    ensures
        download.after_misses(n) == download.in_phase(Phase::Opening { waited: true }),
        download.after_misses(n).pending() == (Command::Wait { millis: POLL_INTERVAL_MS }),
        download.after_misses(n).next(Event::Opened).pending() == (Command::Transfer {
            length: download.progress.length,
            address: download.options.override_address,
        }),
        download.after_misses(n).next(Event::OpenFailed(other)).pending() == Command::Finish(
            Verdict::Failed(Failure::Binding(other)),
        ),
    decreases n,
{
    if n > 1 {
        lemma_wait_polls(download, (n - 1) as nat, other);
    } else {
        assert(download.after_misses(0) == download);
    }
}

/// Without the wish to wait, the first failure to open the device ends the download.
pub proof fn lemma_no_wait_no_retry(download: Download, e: Error)
    requires
        download.phase is Opening,
        !download.options.wait,
    ensures
        download.next(Event::OpenFailed(e)).pending() == Command::Finish(
            Verdict::Failed(Failure::Binding(e)),
        ),
{
}

/// Where a reset was asked for, a transfer that succeeded is followed by a detach request,
/// and the detach request by a bus reset, whether or not the device acknowledged it. The
/// outcome of the reset is the outcome of the download.
pub proof fn lemma_reset_sequence(download: Download, ok: bool, reset: Result<(), TransportError>)
    requires
        download.phase is Transferring,
        download.options.reset,
    ensures
        download.next(Event::Transferred).pending() == Command::Detach,
        download.next(Event::Transferred).next(Event::Detached { ok }).pending()
            == Command::BusReset,
        download.next(Event::Transferred).next(Event::Detached { ok }).next(
            Event::ResetDone(reset),
        ).pending() == Command::Finish(
            match reset {
                Ok(()) => Verdict::Completed,
                Err(e) => Verdict::Failed(Failure::Binding(Error::LibUsb(e))),
            },
        ),
{
}

/// Reports of written bytes move the progress of a transfer and nothing else.
pub proof fn lemma_reports_move_progress(download: Download, counts: Seq<usize>)
    requires
        download.phase is Transferring,
    ensures
        download.after_reports(counts) == (Download {
            progress: download.progress.fed(counts),
            ..download
        }),
    decreases counts.len(),
{
    if counts.len() > 0 {
        lemma_reports_move_progress(download, counts.drop_last());
    }
}

/// The same transport error at the end of a transfer is a success after full progress and a
/// failure before it: after reports that add up to the length of the image the device is
/// taken to have reset itself, after reports that add up to less the error is passed on.
pub proof fn lemma_self_reset(
    file_length: u64,
    options: Options,
    counts: Seq<usize>,
    e: TransportError,
)
    requires
        file_length <= MAX_TRANSFER_LENGTH,
        total(counts) <= file_length,
    ensures
        ({
            let download = Download::started(file_length, options).next(
                Event::Opened,
            ).after_reports(counts);
            download.next(Event::TransferFailed(TransferError::Transport(e))).pending()
                == Command::Finish(
                if counts.len() > 0 && total(counts) == file_length {
                    Verdict::SelfReset
                } else {
                    Verdict::Failed(Failure::Transfer(TransferError::Transport(e)))
                },
            )
        }),
{
    let opened = Download::started(file_length, options).next(Event::Opened);
    lemma_reports_move_progress(opened, counts);
    lemma_progress_tracks(file_length as u32, counts);
}

/// An error of the engine itself is passed on whatever the progress.
pub proof fn lemma_engine_error_fails(download: Download)
    requires
        download.phase is Transferring,
    ensures
        download.next(Event::TransferFailed(TransferError::Engine)).pending() == Command::Finish(
            Verdict::Failed(Failure::Transfer(TransferError::Engine)),
        ),
{
}

/// A download that has ended stays ended: no event brings another command. In particular an
/// image that is too large is refused before any command to open a device.
pub proof fn lemma_finished_stays(download: Download, event: Event)
    requires
        download.phase is Finished,
    ensures
        download.next(event) == download,
        download.pending() is Finish,
{
}

} // verus!
