//! The base address of a DfuSe interface string: `0x` followed by a hexadecimal number.

use vstd::prelude::*;

verus! {

/// Value of a hexadecimal digit, in either case.
pub open spec fn hex_digit(c: char) -> Option<nat> {
    if '0' <= c <= '9' {
        Some((c as u32 - '0' as u32) as nat)
    } else if 'a' <= c <= 'f' {
        Some((c as u32 - 'a' as u32 + 10) as nat)
    } else if 'A' <= c <= 'F' {
        Some((c as u32 - 'A' as u32 + 10) as nat)
    } else {
        None
    }
}

/// Whether every character of `digits` is a hexadecimal digit.
pub open spec fn all_hex(digits: Seq<char>) -> bool {
    forall|i: int| 0 <= i < digits.len() ==> (#[trigger] hex_digit(digits[i])) is Some
}

/// The number that `digits` writes in base 16, most significant digit first.
pub open spec fn hex_value(digits: Seq<char>) -> nat
    decreases digits.len(),
{
    if digits.len() == 0 {
        0
    } else {
        16 * hex_value(digits.drop_last()) + hex_digit(digits.last()).unwrap_or(0)
    }
}

/// The 32-bit number that `digits` writes in base 16: at least one hexadecimal digit and
/// nothing else, with a value that fits. Leading zeros are allowed.
pub open spec fn digits_number(digits: Seq<char>) -> Option<u32> {
    if digits.len() > 0 && all_hex(digits) && hex_value(digits) <= u32::MAX {
        Some(hex_value(digits) as u32)
    } else {
        None
    }
}

/// The 32-bit number that `text` writes in base 16: an optional `+`, then the digits.
pub open spec fn hex_number(text: Seq<char>) -> Option<u32> {
    if text.len() > 0 && text[0] == '+' {
        digits_number(text.skip(1))
    } else {
        digits_number(text)
    }
}

/// The address that `text` writes: `0x`, in lower case, and then a hexadecimal number.
pub open spec fn address_of(text: Seq<char>) -> Option<u32> {
    if text.len() >= 2 && text[0] == '0' && text[1] == 'x' {
        hex_number(text.skip(2))
    } else {
        None
    }
}

/// A number never shrinks when digits are appended to it.
pub proof fn lemma_hex_value_grows(digits: Seq<char>, n: int)
    requires
        0 <= n <= digits.len(),
    ensures
        hex_value(digits.take(n)) <= hex_value(digits),
    decreases digits.len() - n,
{
    if n == digits.len() {
        assert(digits.take(n) =~= digits);
    } else {
        lemma_hex_value_grows(digits, n + 1);
        assert(digits.take(n + 1).drop_last() =~= digits.take(n));
    }
}

/// Value of one hexadecimal digit.
fn digit_of(c: char) -> (res: Option<u32>)
    ensures
        match res {
            Some(d) => hex_digit(c) == Some(d as nat) && d < 16,
            None => hex_digit(c) is None,
        },
{
    if '0' <= c && c <= '9' {
        Some(c as u32 - '0' as u32)
    } else if 'a' <= c && c <= 'f' {
        Some(c as u32 - 'a' as u32 + 10)
    } else if 'A' <= c && c <= 'F' {
        Some(c as u32 - 'A' as u32 + 10)
    } else {
        None
    }
}

/// Reads `text[from..to]` as a 32-bit hexadecimal number.
pub fn parse_hex(text: &[char], from: usize, to: usize) -> (res: Option<u32>)
    requires
        from <= to <= text@.len(),
    ensures
        res == hex_number(text@.subrange(from as int, to as int)),
{
    let ghost whole = text@.subrange(from as int, to as int);
    let start = if from < to && text[from] == '+' {
        from + 1
    } else {
        from
    };
    let ghost digits = text@.subrange(start as int, to as int);
    proof {
        if start != from {
            assert(digits =~= whole.skip(1));
        }
    }
    if start == to {
        return None;
    }
    let mut value: u32 = 0;
    let mut i: usize = start;
    while i < to
        invariant
            from <= start <= i <= to <= text@.len(),
            start < to,
            digits == text@.subrange(start as int, to as int),
            hex_number(text@.subrange(from as int, to as int)) == digits_number(digits),
            all_hex(digits.take(i - start)),
            value == hex_value(digits.take(i - start)),
        decreases to - i,
    {
        let ghost seen = digits.take(i - start);
        let ghost next = digits.take(i + 1 - start);
        proof {
            assert(next.drop_last() =~= seen);
            assert(next.last() == text@[i as int]);
        }
        match digit_of(text[i]) {
            None => {
                return None;
            },
            Some(d) => {
                if value > (u32::MAX - d) / 16 {
                    proof {
                        lemma_hex_value_grows(digits, i + 1 - start);
                    }
                    return None;
                }
                value = value * 16 + d;
            },
        }
        i = i + 1;
    }
    proof {
        assert(digits.take(to - start) =~= digits);
    }
    Some(value)
}

/// Reads `text[from..to]` as an address.
pub fn parse_address(text: &[char], from: usize, to: usize) -> (res: Option<u32>)
    requires
        from <= to <= text@.len(),
    ensures
        res == address_of(text@.subrange(from as int, to as int)),
{
    let ghost whole = text@.subrange(from as int, to as int);
    if to - from >= 2 && text[from] == '0' && text[from + 1] == 'x' {
        proof {
            assert(whole.skip(2) =~= text@.subrange(from + 2, to as int));
        }
        parse_hex(text, from + 2, to)
    } else {
        None
    }
}

} // verus!
