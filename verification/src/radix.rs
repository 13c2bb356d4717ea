//! The capability that the parser asks of a numeric type.

use vstd::prelude::*;
use crate::digits::magnitude;

verus! {

/// A numeric type that can be read from a text of digits in a given radix.
pub trait FromStrRadix: Sized {
    /// What a failed reading reports.
    type FromStrRadixErr;

    /// What reading `s` in `radix` gives. A reading depends on the
    /// characters of the text and on the radix, and on nothing else.
    spec fn radix_outcome(s: Seq<char>, radix: u32) -> Result<Self, Self::FromStrRadixErr>;

    /// Reads `s` as a number written in `radix`, which lies between 2 and 36.
    fn from_str_radix(s: &str, radix: u32) -> (r: Result<Self, Self::FromStrRadixErr>)
        requires
            2 <= radix <= 36,
        ensures
            r == Self::radix_outcome(s@, radix),
    ;
}

/// A type of integers that reads digits in positional notation.
pub trait RadixInteger: FromStrRadix {
    /// The integer that a value of the type stands for.
    spec fn int_value(self) -> int;

    /// Whether the type has a value that stands for `n`.
    spec fn holds(n: int) -> bool;

    /// A nonempty text of digits of the radix reads as the number that the
    /// digits denote, exactly where the type holds that number.
    proof fn lemma_digits_outcome(s: Seq<char>, radix: u32)
        requires
            2 <= radix <= 36,
            magnitude(s, radix) is Some,
        ensures
            Self::radix_outcome(s, radix) is Ok <==> Self::holds(magnitude(s, radix).unwrap()),
            Self::radix_outcome(s, radix) matches Ok(v) ==> v.int_value() == magnitude(
                s,
                radix,
            ).unwrap(),
    ;
}

} // verus!
