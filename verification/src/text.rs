//! Character-level helpers shared by the parsers.

use vstd::prelude::*;

verus! {

/// The characters of `text`, in order.
pub fn chars_of(text: &str) -> (chars: Vec<char>)
    ensures
        chars@ == text@,
{
    let mut chars: Vec<char> = Vec::new();
    for c in walk: text.chars()
        invariant
            walk.seq() == text@,
            chars@ == walk.seq().take(walk.index() as int),
    {
        chars.push(c);
    }
    chars
}

/// Position of the last `needle` among the first `end` characters of `text`.
pub fn last_position(text: &[char], end: usize, needle: char) -> (res: Option<usize>)
    requires
        end <= text@.len(),
    ensures
        match res {
            Some(i) => i < end && text@[i as int] == needle && text@.take(
                end as int,
            ).index_of_last(needle) == Some(i as int),
            None => text@.take(end as int).index_of_last(needle) is None,
        },
{
    let ghost head = text@.take(end as int);
    let mut i: usize = end;
    while i > 0
        invariant
            i <= end <= text@.len(),
            head == text@.take(end as int),
            forall|j: int| i <= j < end ==> head[j] != needle,
        decreases i,
    {
        i = i - 1;
        if text[i] == needle {
            proof {
                head.index_of_last_ensures(needle);
                assert(head[i as int] == needle);
            }
            return Some(i);
        }
    }
    proof {
        head.index_of_last_ensures(needle);
    }
    None
}

} // verus!
