//! The unsigned primitive integers as targets of a parse.

use vstd::prelude::*;
use crate::digits::literal_within;
use crate::radix::{FromStrRadix, RadixInteger};
use core::num::ParseIntError;

verus! {

/// std's report of a text that does not read as an integer. The library
/// carries it and does not look inside.
#[verifier::external_type_specification]
#[verifier::external_body]
pub struct ExParseIntError(ParseIntError);

/// The failure that `<u8 as num_traits::Num>::from_str_radix` reports for a
/// text that is no literal of a `u8`.
pub uninterp spec fn u8_radix_failure(s: Seq<char>, radix: u32) -> ParseIntError;

/// Calls `<u8 as num_traits::Num>::from_str_radix`, which hands the text to
/// std's `u8::from_str_radix`: an optional `+` with digits of the radix
/// behind it gives the number that they denote, where a `u8` holds it; any
/// other text gives a failure. A radix outside 2 to 36 would panic.
#[verifier::external_body]
fn u8_from_str_radix(s: &str, radix: u32) -> (r: Result<u8, ParseIntError>)
    requires
        2 <= radix <= 36,
    ensures
        r == (match literal_within(s@, radix, false, u8::MIN as int, u8::MAX as int) {
            Some(n) => Ok(n as u8),
            None => Err(u8_radix_failure(s@, radix)),
        }),
{
    num_traits::Num::from_str_radix(s, radix)
}

impl FromStrRadix for u8 {
    type FromStrRadixErr = ParseIntError;

    open spec fn radix_outcome(s: Seq<char>, radix: u32) -> Result<u8, ParseIntError> {
        match literal_within(s, radix, false, u8::MIN as int, u8::MAX as int) {
            Some(n) => Ok(n as u8),
            None => Err(u8_radix_failure(s, radix)),
        }
    }

    fn from_str_radix(s: &str, radix: u32) -> (r: Result<u8, ParseIntError>) {
        u8_from_str_radix(s, radix)
    }
}

impl RadixInteger for u8 {
    open spec fn int_value(self) -> int {
        self as int
    }

    open spec fn holds(n: int) -> bool {
        u8::MIN <= n <= u8::MAX
    }

    proof fn lemma_digits_outcome(s: Seq<char>, radix: u32) {
    }
}

/// The failure that `<u16 as num_traits::Num>::from_str_radix` reports for a
/// text that is no literal of a `u16`.
pub uninterp spec fn u16_radix_failure(s: Seq<char>, radix: u32) -> ParseIntError;

/// Calls `<u16 as num_traits::Num>::from_str_radix`, which hands the text to
/// std's `u16::from_str_radix`: an optional `+` with digits of the radix
/// behind it gives the number that they denote, where a `u16` holds it; any
/// other text gives a failure. A radix outside 2 to 36 would panic.
#[verifier::external_body]
fn u16_from_str_radix(s: &str, radix: u32) -> (r: Result<u16, ParseIntError>)
    requires
        2 <= radix <= 36,
    ensures
        r == (match literal_within(s@, radix, false, u16::MIN as int, u16::MAX as int) {
            Some(n) => Ok(n as u16),
            None => Err(u16_radix_failure(s@, radix)),
        }),
{
    num_traits::Num::from_str_radix(s, radix)
}

impl FromStrRadix for u16 {
    type FromStrRadixErr = ParseIntError;

    open spec fn radix_outcome(s: Seq<char>, radix: u32) -> Result<u16, ParseIntError> {
        match literal_within(s, radix, false, u16::MIN as int, u16::MAX as int) {
            Some(n) => Ok(n as u16),
            None => Err(u16_radix_failure(s, radix)),
        }
    }

    fn from_str_radix(s: &str, radix: u32) -> (r: Result<u16, ParseIntError>) {
        u16_from_str_radix(s, radix)
    }
}

impl RadixInteger for u16 {
    open spec fn int_value(self) -> int {
        self as int
    }

    open spec fn holds(n: int) -> bool {
        u16::MIN <= n <= u16::MAX
    }

    proof fn lemma_digits_outcome(s: Seq<char>, radix: u32) {
    }
}

/// The failure that `<u32 as num_traits::Num>::from_str_radix` reports for a
/// text that is no literal of a `u32`.
pub uninterp spec fn u32_radix_failure(s: Seq<char>, radix: u32) -> ParseIntError;

/// Calls `<u32 as num_traits::Num>::from_str_radix`, which hands the text to
/// std's `u32::from_str_radix`: an optional `+` with digits of the radix
/// behind it gives the number that they denote, where a `u32` holds it; any
/// other text gives a failure. A radix outside 2 to 36 would panic.
#[verifier::external_body]
fn u32_from_str_radix(s: &str, radix: u32) -> (r: Result<u32, ParseIntError>)
    requires
        2 <= radix <= 36,
    ensures
        r == (match literal_within(s@, radix, false, u32::MIN as int, u32::MAX as int) {
            Some(n) => Ok(n as u32),
            None => Err(u32_radix_failure(s@, radix)),
        }),
{
    num_traits::Num::from_str_radix(s, radix)
}

impl FromStrRadix for u32 {
    type FromStrRadixErr = ParseIntError;

    open spec fn radix_outcome(s: Seq<char>, radix: u32) -> Result<u32, ParseIntError> {
        match literal_within(s, radix, false, u32::MIN as int, u32::MAX as int) {
            Some(n) => Ok(n as u32),
            None => Err(u32_radix_failure(s, radix)),
        }
    }

    fn from_str_radix(s: &str, radix: u32) -> (r: Result<u32, ParseIntError>) {
        u32_from_str_radix(s, radix)
    }
}

impl RadixInteger for u32 {
    open spec fn int_value(self) -> int {
        self as int
    }

    open spec fn holds(n: int) -> bool {
        u32::MIN <= n <= u32::MAX
    }

    proof fn lemma_digits_outcome(s: Seq<char>, radix: u32) {
    }
}

/// The failure that `<u64 as num_traits::Num>::from_str_radix` reports for a
/// text that is no literal of a `u64`.
pub uninterp spec fn u64_radix_failure(s: Seq<char>, radix: u32) -> ParseIntError;

/// Calls `<u64 as num_traits::Num>::from_str_radix`, which hands the text to
/// std's `u64::from_str_radix`: an optional `+` with digits of the radix
/// behind it gives the number that they denote, where a `u64` holds it; any
/// other text gives a failure. A radix outside 2 to 36 would panic.
#[verifier::external_body]
fn u64_from_str_radix(s: &str, radix: u32) -> (r: Result<u64, ParseIntError>)
    requires
        2 <= radix <= 36,
    ensures
        r == (match literal_within(s@, radix, false, u64::MIN as int, u64::MAX as int) {
            Some(n) => Ok(n as u64),
            None => Err(u64_radix_failure(s@, radix)),
        }),
{
    num_traits::Num::from_str_radix(s, radix)
}

impl FromStrRadix for u64 {
    type FromStrRadixErr = ParseIntError;

    open spec fn radix_outcome(s: Seq<char>, radix: u32) -> Result<u64, ParseIntError> {
        match literal_within(s, radix, false, u64::MIN as int, u64::MAX as int) {
            Some(n) => Ok(n as u64),
            None => Err(u64_radix_failure(s, radix)),
        }
    }

    fn from_str_radix(s: &str, radix: u32) -> (r: Result<u64, ParseIntError>) {
        u64_from_str_radix(s, radix)
    }
}

impl RadixInteger for u64 {
    open spec fn int_value(self) -> int {
        self as int
    }

    open spec fn holds(n: int) -> bool {
        u64::MIN <= n <= u64::MAX
    }

    proof fn lemma_digits_outcome(s: Seq<char>, radix: u32) {
    }
}

/// The failure that `<u128 as num_traits::Num>::from_str_radix` reports for a
/// text that is no literal of a `u128`.
pub uninterp spec fn u128_radix_failure(s: Seq<char>, radix: u32) -> ParseIntError;

/// Calls `<u128 as num_traits::Num>::from_str_radix`, which hands the text to
/// std's `u128::from_str_radix`: an optional `+` with digits of the radix
/// behind it gives the number that they denote, where a `u128` holds it; any
/// other text gives a failure. A radix outside 2 to 36 would panic.
#[verifier::external_body]
fn u128_from_str_radix(s: &str, radix: u32) -> (r: Result<u128, ParseIntError>)
    requires
        2 <= radix <= 36,
    ensures
        r == (match literal_within(s@, radix, false, u128::MIN as int, u128::MAX as int) {
            Some(n) => Ok(n as u128),
            None => Err(u128_radix_failure(s@, radix)),
        }),
{
    num_traits::Num::from_str_radix(s, radix)
}

impl FromStrRadix for u128 {
    type FromStrRadixErr = ParseIntError;

    open spec fn radix_outcome(s: Seq<char>, radix: u32) -> Result<u128, ParseIntError> {
        match literal_within(s, radix, false, u128::MIN as int, u128::MAX as int) {
            Some(n) => Ok(n as u128),
            None => Err(u128_radix_failure(s, radix)),
        }
    }

    fn from_str_radix(s: &str, radix: u32) -> (r: Result<u128, ParseIntError>) {
        u128_from_str_radix(s, radix)
    }
}

impl RadixInteger for u128 {
    open spec fn int_value(self) -> int {
        self as int
    }

    open spec fn holds(n: int) -> bool {
        u128::MIN <= n <= u128::MAX
    }

    proof fn lemma_digits_outcome(s: Seq<char>, radix: u32) {
    }
}

/// The failure that `<usize as num_traits::Num>::from_str_radix` reports for a
/// text that is no literal of a `usize`, on a machine whose `usize` has `bits`
/// bits.
pub uninterp spec fn usize_radix_failure(s: Seq<char>, radix: u32, bits: u32) -> ParseIntError;

/// Calls `<usize as num_traits::Num>::from_str_radix`, which hands the text to
/// std's `usize::from_str_radix`: an optional `+` with digits of the radix
/// behind it gives the number that they denote, where a `usize` holds it; any
/// other text gives a failure. A radix outside 2 to 36 would panic.
#[verifier::external_body]
fn usize_from_str_radix(s: &str, radix: u32) -> (r: Result<usize, ParseIntError>)
    requires
        2 <= radix <= 36,
    ensures
        r == (match literal_within(s@, radix, false, usize::MIN as int, usize::MAX as int) {
            Some(n) => Ok(n as usize),
            None => Err(usize_radix_failure(s@, radix, usize::BITS)),
        }),
{
    num_traits::Num::from_str_radix(s, radix)
}

impl FromStrRadix for usize {
    type FromStrRadixErr = ParseIntError;

    open spec fn radix_outcome(s: Seq<char>, radix: u32) -> Result<usize, ParseIntError> {
        match literal_within(s, radix, false, usize::MIN as int, usize::MAX as int) {
            Some(n) => Ok(n as usize),
            None => Err(usize_radix_failure(s, radix, usize::BITS)),
        }
    }

    fn from_str_radix(s: &str, radix: u32) -> (r: Result<usize, ParseIntError>) {
        usize_from_str_radix(s, radix)
    }
}

impl RadixInteger for usize {
    open spec fn int_value(self) -> int {
        self as int
    }

    open spec fn holds(n: int) -> bool {
        usize::MIN <= n <= usize::MAX
    }

    proof fn lemma_digits_outcome(s: Seq<char>, radix: u32) {
    }
}

} // verus!
