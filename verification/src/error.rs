//! The failures of a parse.

use vstd::prelude::*;
use vstd::string::to_string_from_display_ensures;
use crate::radix::FromStrRadix;

verus! {

/// Error type for `PrefixParse`
#[derive(Debug, PartialEq, Eq)]
pub enum ParseError<T: FromStrRadix> {
    /// The text does not begin with the prefix that the format asks for.
    NoPrefixMatch,
    /// The text behind the prefix does not read as a number: holds what the
    /// numeric type reported.
    RadixParseFailed(T::FromStrRadixErr),
}

/// A reading of digits as the outcome of a parse: a value as it is, a failure
/// as `RadixParseFailed`.
pub open spec fn wrapped<T: FromStrRadix>(r: Result<T, T::FromStrRadixErr>) -> Result<
    T,
    ParseError<T>,
> {
    match r {
        Ok(v) => Ok(v),
        Err(e) => Err(ParseError::RadixParseFailed(e)),
    }
}

impl<T: FromStrRadix> ParseError<T> {
    /// Turns what a reading of digits gave into the outcome of a parse.
    pub fn wrap(r: Result<T, T::FromStrRadixErr>) -> (w: Result<T, ParseError<T>>)
        ensures
            w == wrapped(r),
    {
        match r {
            Ok(v) => Ok(v),
            Err(e) => Err(ParseError::RadixParseFailed(e)),
        }
    }
}

impl<T: FromStrRadix> ParseError<T> where T::FromStrRadixErr: core::fmt::Display {
    /// The description of the failure, for a reader: a fixed text for a
    /// prefix that did not match, and for a failed reading of digits what the
    /// numeric type's own failure displays, unchanged.
    pub fn message(&self) -> (m: String)
        ensures
            self is NoPrefixMatch ==> m@ == "No Prefix Match"@,
            self matches ParseError::RadixParseFailed(e) ==> (to_string_from_display_ensures::<
                T::FromStrRadixErr,
            >(e, m)),
    {
        match self {
            ParseError::NoPrefixMatch => "No Prefix Match".to_string(),
            ParseError::RadixParseFailed(e) => e.to_string(),
        }
    }
}

} // verus!
