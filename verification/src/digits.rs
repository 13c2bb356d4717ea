//! The mathematical reading of digits: what number a text denotes in a
//! radix.

use vstd::prelude::*;

verus! {

/// The value of `c` as a digit: 0 to 9 for a decimal digit, 10 to 35 for a
/// letter of either case, nothing for any other character.
pub open spec fn digit_value(c: char) -> Option<nat> {
    if '0' <= c <= '9' {
        Some((c as nat - '0' as nat) as nat)
    } else if 'a' <= c <= 'z' {
        Some((c as nat - 'a' as nat + 10) as nat)
    } else if 'A' <= c <= 'Z' {
        Some((c as nat - 'A' as nat + 10) as nat)
    } else {
        None
    }
}

/// Whether `c` is a digit of the given radix.
pub open spec fn is_digit(c: char, radix: u32) -> bool {
    digit_value(c) matches Some(d) && d < radix
}

/// Whether every character of `s` is a digit of the given radix.
pub open spec fn all_digits(s: Seq<char>, radix: u32) -> bool {
    forall|i: int| 0 <= i < s.len() ==> is_digit(#[trigger] s[i], radix)
}

/// The number that the digits of `s` denote in positional notation, the
/// last digit counting least.
pub open spec fn digits_value(s: Seq<char>, radix: u32) -> nat
    recommends
        all_digits(s, radix),
    decreases s.len(),
{
    if s.len() == 0 {
        0
    } else {
        digits_value(s.drop_last(), radix) * (radix as nat) + digit_value(s.last()).unwrap()
    }
}

/// The number that a nonempty string of digits denotes, nothing for any other
/// string.
pub open spec fn magnitude(s: Seq<char>, radix: u32) -> Option<int> {
    if s.len() > 0 && all_digits(s, radix) {
        Some(digits_value(s, radix) as int)
    } else {
        None
    }
}

/// The integer that `s` denotes as a literal in the given radix: digits,
/// after an optional `+`, or for a signed reading an optional `-`. Nothing
/// where `s` is no such literal.
pub open spec fn literal_value(s: Seq<char>, radix: u32, signed: bool) -> Option<int> {
    if s.len() > 0 && s[0] == '+' {
        magnitude(s.skip(1), radix)
    } else if signed && s.len() > 0 && s[0] == '-' {
        match magnitude(s.skip(1), radix) {
            Some(n) => Some(-n),
            None => None,
        }
    } else {
        magnitude(s, radix)
    }
}

/// The integer that `s` denotes, where it is a literal whose value lies
/// between `lo` and `hi`.
pub open spec fn literal_within(
    s: Seq<char>,
    radix: u32,
    signed: bool,
    lo: int,
    hi: int,
) -> Option<int> {
    match literal_value(s, radix, signed) {
        Some(n) if lo <= n <= hi => Some(n),
        _ => None,
    }
}

} // verus!
