//! Parsing a literal by its prefix.

use vstd::prelude::*;
use crate::error::{wrapped, ParseError};
use crate::format::{known_digits, known_radix, PrefixFmt};
use crate::radix::FromStrRadix;
use crate::split::split_known_prefix;
use tap::Pipe;

verus! {

/// What parsing `s` by its built-in prefix gives: the text behind the prefix,
/// read in the radix that the prefix stands for.
pub open spec fn parse_outcome<T: FromStrRadix>(s: Seq<char>) -> Result<T, ParseError<T>> {
    wrapped(T::radix_outcome(known_digits(s), known_radix(s)))
}

/// What parsing `s` by a format of the given prefix and radix gives: no match
/// where `s` does not begin with the prefix, else the text behind it, read in
/// the radix.
pub open spec fn parse_with_outcome<T: FromStrRadix>(
    prefix: Seq<char>,
    radix: u32,
    s: Seq<char>,
) -> Result<T, ParseError<T>> {
    if prefix.is_prefix_of(s) {
        wrapped(T::radix_outcome(s.skip(prefix.len() as int), radix))
    } else {
        Err(ParseError::NoPrefixMatch)
    }
}

/// Calls `tap::Pipe::pipe`: hands `value` to `func` and returns what `func`
/// returns.
#[verifier::external_body]
fn pipe<A, R, F: FnOnce(A) -> R>(value: A, func: F) -> (out: R)
    requires
        func.requires((value,)),
    ensures
        func.ensures((value,), out),
{
    value.pipe(func)
}

/// Trait for parsing prefixed numbers
pub trait PrefixParse: FromStrRadix {
    /// Parse a number prefixed with `0x`, `0o`, and `0b`
    ///
    /// A text with none of these prefixes is read as decimal. A text with
    /// one of them never is, whatever follows the prefix.
    fn parse(src: &str) -> (r: Result<Self, ParseError<Self>>)
        ensures
            r == parse_outcome::<Self>(src@),
    {
        let (radix, rest) = split_known_prefix(src);
        ParseError::wrap(Self::from_str_radix(rest, radix))
    }

    /// Parse a number with a custom prefix
    ///
    /// The text must begin with exactly the prefix of the format: there is
    /// no fallback to decimal. Where it does, the radix of the format must
    /// lie between 2 and 36, as the reading of digits asks.
    fn parse_with(fmt: &PrefixFmt, src: &str) -> (r: Result<Self, ParseError<Self>>)
        requires
            fmt.heads(src@) ==> 2 <= fmt.radix <= 36,
        ensures
            r == parse_with_outcome::<Self>(fmt.prefix@, fmt.radix, src@),
            r matches Err(ParseError::NoPrefixMatch) <==> !fmt.heads(src@),
    {
        match fmt.strip(src) {
            None => Err(ParseError::NoPrefixMatch),
            Some(rest) => {
                let radix = fmt.radix;
                let read = |rest: &str| -> (r: Result<Self, Self::FromStrRadixErr>)
                    requires
                        2 <= radix <= 36,
                    ensures
                        r == Self::radix_outcome(rest@, radix),
                    { Self::from_str_radix(rest, radix) };
                ParseError::wrap(pipe(rest, read))
            },
        }
    }
}

/// Implementation for all number types that can be read in a radix.
impl<T: FromStrRadix> PrefixParse for T {}

} // verus!
