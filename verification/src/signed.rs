//! The signed primitive integers as targets of a parse.

use vstd::prelude::*;
use crate::digits::literal_within;
use crate::radix::{FromStrRadix, RadixInteger};
use core::num::ParseIntError;

verus! {

/// The failure that `<i8 as num_traits::Num>::from_str_radix` reports for a
/// text that is no literal of a `i8`.
pub uninterp spec fn i8_radix_failure(s: Seq<char>, radix: u32) -> ParseIntError;

/// Calls `<i8 as num_traits::Num>::from_str_radix`, which hands the text to
/// std's `i8::from_str_radix`: an optional `+` or `-` with digits of the radix
/// behind it gives the number that they denote, where a `i8` holds it; any
/// other text gives a failure. A radix outside 2 to 36 would panic.
#[verifier::external_body]
fn i8_from_str_radix(s: &str, radix: u32) -> (r: Result<i8, ParseIntError>)
    requires
        2 <= radix <= 36,
    ensures
        r == (match literal_within(s@, radix, true, i8::MIN as int, i8::MAX as int) {
            Some(n) => Ok(n as i8),
            None => Err(i8_radix_failure(s@, radix)),
        }),
{
    num_traits::Num::from_str_radix(s, radix)
}

impl FromStrRadix for i8 {
    type FromStrRadixErr = ParseIntError;

    open spec fn radix_outcome(s: Seq<char>, radix: u32) -> Result<i8, ParseIntError> {
        match literal_within(s, radix, true, i8::MIN as int, i8::MAX as int) {
            Some(n) => Ok(n as i8),
            None => Err(i8_radix_failure(s, radix)),
        }
    }

    fn from_str_radix(s: &str, radix: u32) -> (r: Result<i8, ParseIntError>) {
        i8_from_str_radix(s, radix)
    }
}

impl RadixInteger for i8 {
    open spec fn int_value(self) -> int {
        self as int
    }

    open spec fn holds(n: int) -> bool {
        i8::MIN <= n <= i8::MAX
    }

    proof fn lemma_digits_outcome(s: Seq<char>, radix: u32) {
    }
}

/// The failure that `<i16 as num_traits::Num>::from_str_radix` reports for a
/// text that is no literal of a `i16`.
pub uninterp spec fn i16_radix_failure(s: Seq<char>, radix: u32) -> ParseIntError;

/// Calls `<i16 as num_traits::Num>::from_str_radix`, which hands the text to
/// std's `i16::from_str_radix`: an optional `+` or `-` with digits of the radix
/// behind it gives the number that they denote, where a `i16` holds it; any
/// other text gives a failure. A radix outside 2 to 36 would panic.
#[verifier::external_body]
fn i16_from_str_radix(s: &str, radix: u32) -> (r: Result<i16, ParseIntError>)
    requires
        2 <= radix <= 36,
    ensures
        r == (match literal_within(s@, radix, true, i16::MIN as int, i16::MAX as int) {
            Some(n) => Ok(n as i16),
            None => Err(i16_radix_failure(s@, radix)),
        }),
{
    num_traits::Num::from_str_radix(s, radix)
}

impl FromStrRadix for i16 {
    type FromStrRadixErr = ParseIntError;

    open spec fn radix_outcome(s: Seq<char>, radix: u32) -> Result<i16, ParseIntError> {
        match literal_within(s, radix, true, i16::MIN as int, i16::MAX as int) {
            Some(n) => Ok(n as i16),
            None => Err(i16_radix_failure(s, radix)),
        }
    }

    fn from_str_radix(s: &str, radix: u32) -> (r: Result<i16, ParseIntError>) {
        i16_from_str_radix(s, radix)
    }
}

impl RadixInteger for i16 {
    open spec fn int_value(self) -> int {
        self as int
    }

    open spec fn holds(n: int) -> bool {
        i16::MIN <= n <= i16::MAX
    }

    proof fn lemma_digits_outcome(s: Seq<char>, radix: u32) {
    }
}

/// The failure that `<i32 as num_traits::Num>::from_str_radix` reports for a
/// text that is no literal of a `i32`.
pub uninterp spec fn i32_radix_failure(s: Seq<char>, radix: u32) -> ParseIntError;

/// Calls `<i32 as num_traits::Num>::from_str_radix`, which hands the text to
/// std's `i32::from_str_radix`: an optional `+` or `-` with digits of the radix
/// behind it gives the number that they denote, where a `i32` holds it; any
/// other text gives a failure. A radix outside 2 to 36 would panic.
#[verifier::external_body]
fn i32_from_str_radix(s: &str, radix: u32) -> (r: Result<i32, ParseIntError>)
    requires
        2 <= radix <= 36,
    ensures
        r == (match literal_within(s@, radix, true, i32::MIN as int, i32::MAX as int) {
            Some(n) => Ok(n as i32),
            None => Err(i32_radix_failure(s@, radix)),
        }),
{
    num_traits::Num::from_str_radix(s, radix)
}

impl FromStrRadix for i32 {
    type FromStrRadixErr = ParseIntError;

    open spec fn radix_outcome(s: Seq<char>, radix: u32) -> Result<i32, ParseIntError> {
        match literal_within(s, radix, true, i32::MIN as int, i32::MAX as int) {
            Some(n) => Ok(n as i32),
            None => Err(i32_radix_failure(s, radix)),
        }
    }

    fn from_str_radix(s: &str, radix: u32) -> (r: Result<i32, ParseIntError>) {
        i32_from_str_radix(s, radix)
    }
}

impl RadixInteger for i32 {
    open spec fn int_value(self) -> int {
        self as int
    }

    open spec fn holds(n: int) -> bool {
        i32::MIN <= n <= i32::MAX
    }

    proof fn lemma_digits_outcome(s: Seq<char>, radix: u32) {
    }
}

/// The failure that `<i64 as num_traits::Num>::from_str_radix` reports for a
/// text that is no literal of a `i64`.
pub uninterp spec fn i64_radix_failure(s: Seq<char>, radix: u32) -> ParseIntError;

/// Calls `<i64 as num_traits::Num>::from_str_radix`, which hands the text to
/// std's `i64::from_str_radix`: an optional `+` or `-` with digits of the radix
/// behind it gives the number that they denote, where a `i64` holds it; any
/// other text gives a failure. A radix outside 2 to 36 would panic.
#[verifier::external_body]
fn i64_from_str_radix(s: &str, radix: u32) -> (r: Result<i64, ParseIntError>)
    requires
        2 <= radix <= 36,
    ensures
        r == (match literal_within(s@, radix, true, i64::MIN as int, i64::MAX as int) {
            Some(n) => Ok(n as i64),
            None => Err(i64_radix_failure(s@, radix)),
        }),
{
    num_traits::Num::from_str_radix(s, radix)
}

impl FromStrRadix for i64 {
    type FromStrRadixErr = ParseIntError;

    open spec fn radix_outcome(s: Seq<char>, radix: u32) -> Result<i64, ParseIntError> {
        match literal_within(s, radix, true, i64::MIN as int, i64::MAX as int) {
            Some(n) => Ok(n as i64),
            None => Err(i64_radix_failure(s, radix)),
        }
    }

    fn from_str_radix(s: &str, radix: u32) -> (r: Result<i64, ParseIntError>) {
        i64_from_str_radix(s, radix)
    }
}

impl RadixInteger for i64 {
    open spec fn int_value(self) -> int {
        self as int
    }

    open spec fn holds(n: int) -> bool {
        i64::MIN <= n <= i64::MAX
    }

    proof fn lemma_digits_outcome(s: Seq<char>, radix: u32) {
    }
}

/// The failure that `<i128 as num_traits::Num>::from_str_radix` reports for a
/// text that is no literal of a `i128`.
pub uninterp spec fn i128_radix_failure(s: Seq<char>, radix: u32) -> ParseIntError;

/// Calls `<i128 as num_traits::Num>::from_str_radix`, which hands the text to
/// std's `i128::from_str_radix`: an optional `+` or `-` with digits of the radix
/// behind it gives the number that they denote, where a `i128` holds it; any
/// other text gives a failure. A radix outside 2 to 36 would panic.
#[verifier::external_body]
fn i128_from_str_radix(s: &str, radix: u32) -> (r: Result<i128, ParseIntError>)
    requires
        2 <= radix <= 36,
    ensures
        r == (match literal_within(s@, radix, true, i128::MIN as int, i128::MAX as int) {
            Some(n) => Ok(n as i128),
            None => Err(i128_radix_failure(s@, radix)),
        }),
{
    num_traits::Num::from_str_radix(s, radix)
}

impl FromStrRadix for i128 {
    type FromStrRadixErr = ParseIntError;

    open spec fn radix_outcome(s: Seq<char>, radix: u32) -> Result<i128, ParseIntError> {
        match literal_within(s, radix, true, i128::MIN as int, i128::MAX as int) {
            Some(n) => Ok(n as i128),
            None => Err(i128_radix_failure(s, radix)),
        }
    }

    fn from_str_radix(s: &str, radix: u32) -> (r: Result<i128, ParseIntError>) {
        i128_from_str_radix(s, radix)
    }
}

impl RadixInteger for i128 {
    open spec fn int_value(self) -> int {
        self as int
    }

    open spec fn holds(n: int) -> bool {
        i128::MIN <= n <= i128::MAX
    }

    proof fn lemma_digits_outcome(s: Seq<char>, radix: u32) {
    }
}

/// The failure that `<isize as num_traits::Num>::from_str_radix` reports for a
/// text that is no literal of a `isize`, on a machine whose `isize` has `bits`
/// bits.
pub uninterp spec fn isize_radix_failure(s: Seq<char>, radix: u32, bits: u32) -> ParseIntError;

/// Calls `<isize as num_traits::Num>::from_str_radix`, which hands the text to
/// std's `isize::from_str_radix`: an optional `+` or `-` with digits of the radix
/// behind it gives the number that they denote, where a `isize` holds it; any
/// other text gives a failure. A radix outside 2 to 36 would panic.
#[verifier::external_body]
fn isize_from_str_radix(s: &str, radix: u32) -> (r: Result<isize, ParseIntError>)
    requires
        2 <= radix <= 36,
    ensures
        r == (match literal_within(s@, radix, true, isize::MIN as int, isize::MAX as int) {
            Some(n) => Ok(n as isize),
            None => Err(isize_radix_failure(s@, radix, isize::BITS)),
        }),
{
    num_traits::Num::from_str_radix(s, radix)
}

impl FromStrRadix for isize {
    type FromStrRadixErr = ParseIntError;

    open spec fn radix_outcome(s: Seq<char>, radix: u32) -> Result<isize, ParseIntError> {
        match literal_within(s, radix, true, isize::MIN as int, isize::MAX as int) {
            Some(n) => Ok(n as isize),
            None => Err(isize_radix_failure(s, radix, isize::BITS)),
        }
    }

    fn from_str_radix(s: &str, radix: u32) -> (r: Result<isize, ParseIntError>) {
        isize_from_str_radix(s, radix)
    }
}

impl RadixInteger for isize {
    open spec fn int_value(self) -> int {
        self as int
    }

    open spec fn holds(n: int) -> bool {
        isize::MIN <= n <= isize::MAX
    }

    proof fn lemma_digits_outcome(s: Seq<char>, radix: u32) {
    }
}

} // verus!
