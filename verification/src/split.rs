//! Finding the prefix of a literal and cutting it off.

use vstd::prelude::*;
use vstd::string::*;
use vstd::utf8::*;
use crate::format::{known_digits, known_radix, PrefixFmt};
use crate::text::{ascii_head, lemma_ascii_head, lemma_two_ascii};

verus! {

/// The byte of the character `0`.
const DIGIT_ZERO: u8 = 0x30;

/// The byte of the character `x`.
const LETTER_X: u8 = 0x78;

/// The byte of the character `o`.
const LETTER_O: u8 = 0x6f;

/// The byte of the character `b`.
const LETTER_B: u8 = 0x62;

/// Cuts the first two bytes off a text that begins with two ASCII characters.
fn skip_two(src: &str) -> (rest: &str)
    requires
        ascii_head(src@, 2),
    ensures
        rest@ == src@.skip(2),
{
    proof {
        lemma_ascii_head(src@, 2);
    }
    let (_, rest) = src.split_at(2);
    proof {
        assert(encode_utf8(rest@) == encode_utf8(src@.skip(2)));
        encode_utf8_decode_utf8(rest@);
        encode_utf8_decode_utf8(src@.skip(2));
    }
    rest
}

/// Tells by its first two bytes which built-in prefix `src` carries, and
/// returns the radix that the prefix stands for with the text behind it. A
/// text that carries none is decimal, and is returned whole.
pub fn split_known_prefix(src: &str) -> (r: (u32, &str))
    ensures
        r.0 == known_radix(src@),
        r.1@ == known_digits(src@),
{
    let bytes = src.as_bytes();
    proof {
        lemma_two_ascii(src@, '0', 'x');
        lemma_two_ascii(src@, '0', 'o');
        lemma_two_ascii(src@, '0', 'b');
    }
    if bytes.len() >= 2 && bytes[0] == DIGIT_ZERO && bytes[1] == LETTER_X {
        (16, skip_two(src))
    } else if bytes.len() >= 2 && bytes[0] == DIGIT_ZERO && bytes[1] == LETTER_O {
        (8, skip_two(src))
    } else if bytes.len() >= 2 && bytes[0] == DIGIT_ZERO && bytes[1] == LETTER_B {
        (2, skip_two(src))
    } else {
        assert(src@.skip(0) =~= src@);
        (10, src)
    }
}

/// Calls `str::strip_prefix` with a text as the pattern: the text behind
/// `prefix` where `src` begins with it, and nothing where it does not.
#[verifier::external_body]
fn strip_prefix<'a>(src: &'a str, prefix: &str) -> (r: Option<&'a str>)
    ensures
        r is Some <==> prefix@.is_prefix_of(src@),
        r matches Some(rest) ==> rest@ == src@.skip(prefix@.len() as int),
{
    src.strip_prefix(prefix)
}

impl<'p> PrefixFmt<'p> {
    /// Whether `s` begins with the prefix of this format.
    pub open spec fn heads(&self, s: Seq<char>) -> bool {
        self.prefix@.is_prefix_of(s)
    }

    /// What follows the prefix of this format in a text `s` that begins with
    /// it.
    pub open spec fn behind(&self, s: Seq<char>) -> Seq<char> {
        s.skip(self.prefix@.len() as int)
    }

    /// Takes the prefix of this format off `src`: the text behind it where
    /// `src` begins with exactly that prefix, nothing where it does not.
    pub fn strip<'a>(&self, src: &'a str) -> (r: Option<&'a str>)
        ensures
            r is Some <==> self.heads(src@),
            r matches Some(rest) ==> rest@ == self.behind(src@),
    {
        strip_prefix(src, self.prefix)
    }
}

} // verus!
