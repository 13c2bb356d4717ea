//! Prefix formats: a prefix text paired with a radix.

use vstd::prelude::*;

verus! {

/// Defines a prefix format.
#[derive(Debug)]
pub struct PrefixFmt<'a> {
    pub prefix: &'a str,
    pub radix: u32,
}

/// The characters of the hexadecimal prefix.
pub open spec fn hex_prefix() -> Seq<char> {
    seq!['0', 'x']
}

/// The characters of the octal prefix.
pub open spec fn oct_prefix() -> Seq<char> {
    seq!['0', 'o']
}

/// The characters of the binary prefix.
pub open spec fn bin_prefix() -> Seq<char> {
    seq!['0', 'b']
}

/// The built-in prefix at the start of `s`: hexadecimal is looked for first,
/// then octal, then binary. Empty where `s` begins with none of them.
pub open spec fn known_prefix(s: Seq<char>) -> Seq<char> {
    if hex_prefix().is_prefix_of(s) {
        hex_prefix()
    } else if oct_prefix().is_prefix_of(s) {
        oct_prefix()
    } else if bin_prefix().is_prefix_of(s) {
        bin_prefix()
    } else {
        Seq::empty()
    }
}

/// The radix that the built-in prefix at the start of `s` stands for, looked
/// for in the same order. Ten where `s` begins with none of them.
pub open spec fn known_radix(s: Seq<char>) -> u32 {
    if hex_prefix().is_prefix_of(s) {
        16
    } else if oct_prefix().is_prefix_of(s) {
        8
    } else if bin_prefix().is_prefix_of(s) {
        2
    } else {
        10
    }
}

/// What follows the built-in prefix at the start of `s`: all of `s` where it
/// begins with none.
pub open spec fn known_digits(s: Seq<char>) -> Seq<char> {
    s.skip(known_prefix(s).len() as int)
}

impl PrefixFmt<'static> {
    /// '0x' prefix for hexadecimal numbers
    pub fn hex() -> (f: Self)
        ensures
            f.prefix@ == hex_prefix(),
            f.radix == 16,
    {
        proof {
            reveal_strlit("0x");
        }
        assert("0x"@ =~= hex_prefix());
        PrefixFmt { prefix: "0x", radix: 16 }
    }

    /// '0o' prefix for octal numbers
    pub fn oct() -> (f: Self)
        ensures
            f.prefix@ == oct_prefix(),
            f.radix == 8,
    {
        proof {
            reveal_strlit("0o");
        }
        assert("0o"@ =~= oct_prefix());
        PrefixFmt { prefix: "0o", radix: 8 }
    }

    /// '0b' prefix for binary numbers
    pub fn bin() -> (f: Self)
        ensures
            f.prefix@ == bin_prefix(),
            f.radix == 2,
    {
        proof {
            reveal_strlit("0b");
        }
        assert("0b"@ =~= bin_prefix());
        PrefixFmt { prefix: "0b", radix: 2 }
    }

    /// '' prefix for decimal numbers
    pub fn dec() -> (f: Self)
        ensures
            f.prefix@ == Seq::<char>::empty(),
            f.radix == 10,
    {
        proof {
            reveal_strlit("");
        }
        assert(""@ =~= Seq::<char>::empty());
        PrefixFmt { prefix: "", radix: 10 }
    }
}

} // verus!
