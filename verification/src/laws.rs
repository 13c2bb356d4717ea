//! What holds of every parse.

use vstd::prelude::*;
use crate::digits::{all_digits, digits_value, is_digit};
use crate::error::ParseError;
use crate::format::{
    bin_prefix, hex_prefix, known_digits, known_prefix, known_radix, oct_prefix, PrefixFmt,
};
use crate::parse::{parse_outcome, parse_with_outcome, PrefixParse};
use crate::radix::{FromStrRadix, RadixInteger};

verus! {

/// No text begins with two of the built-in prefixes, so the order in which
/// they are looked for decides nothing but the fallback: a text is read as
/// hexadecimal exactly where it begins with `0x`, as octal exactly where it
/// begins with `0o`, as binary exactly where it begins with `0b`, and as
/// decimal exactly where it begins with none of the three.
pub proof fn lemma_known_prefix_unique(s: Seq<char>)
    ensures
        known_radix(s) == 16 <==> hex_prefix().is_prefix_of(s),
        known_radix(s) == 8 <==> oct_prefix().is_prefix_of(s),
        known_radix(s) == 2 <==> bin_prefix().is_prefix_of(s),
        known_radix(s) == 10 <==> known_prefix(s).len() == 0,
        known_radix(s) == 16 || known_radix(s) == 8 || known_radix(s) == 2 || known_radix(s)
            == 10,
        known_prefix(s).is_prefix_of(s),
{
    if hex_prefix().is_prefix_of(s) {
        assert(s[1] == hex_prefix()[1]);
    }
    if oct_prefix().is_prefix_of(s) {
        assert(s[1] == oct_prefix()[1]);
    }
    if bin_prefix().is_prefix_of(s) {
        assert(s[1] == bin_prefix()[1]);
    }
}

/// Parsing a text by its built-in prefix gives what parsing it with the
/// format of that prefix gives; a text that begins with `0x` is therefore
/// never read as octal, binary or decimal, whatever follows the prefix.
pub proof fn lemma_parse_is_parse_with<T: FromStrRadix>(s: Seq<char>)
    ensures
        parse_outcome::<T>(s) == parse_with_outcome::<T>(known_prefix(s), known_radix(s), s),
        hex_prefix().is_prefix_of(s) ==> parse_outcome::<T>(s) == parse_with_outcome::<T>(
            hex_prefix(),
            16,
            s,
        ),
        oct_prefix().is_prefix_of(s) ==> parse_outcome::<T>(s) == parse_with_outcome::<T>(
            oct_prefix(),
            8,
            s,
        ),
        bin_prefix().is_prefix_of(s) ==> parse_outcome::<T>(s) == parse_with_outcome::<T>(
            bin_prefix(),
            2,
            s,
        ),
        known_prefix(s).len() == 0 ==> parse_outcome::<T>(s) == parse_with_outcome::<T>(
            Seq::empty(),
            10,
            s,
        ),
{
    lemma_known_prefix_unique(s);
    assert(Seq::<char>::empty().is_prefix_of(s));
}

/// A built-in prefix with digits of its radix behind it parses to the number
/// that the digits denote, exactly where the numeric type holds that number.
pub proof fn lemma_parse_prefixed_digits<T: RadixInteger>(
    prefix: Seq<char>,
    radix: u32,
    digits: Seq<char>,
)
    requires
        (prefix == hex_prefix() && radix == 16) || (prefix == oct_prefix() && radix == 8) || (
        prefix == bin_prefix() && radix == 2),
        digits.len() > 0,
        all_digits(digits, radix),
    ensures
        parse_outcome::<T>(prefix + digits) is Ok <==> T::holds(
            digits_value(digits, radix) as int,
        ),
        parse_outcome::<T>(prefix + digits) matches Ok(v) ==> v.int_value() == digits_value(
            digits,
            radix,
        ),
{
    let s = prefix + digits;
    assert(prefix =~= s.subrange(0, 2));
    assert(s[1] == prefix[1]);
    lemma_known_prefix_unique(s);
    assert(known_prefix(s) == prefix);
    assert(known_digits(s) =~= digits);
    T::lemma_digits_outcome(digits, radix);
}

/// Decimal digits without a prefix parse to the number that they denote,
/// exactly where the numeric type holds that number.
pub proof fn lemma_parse_decimal_digits<T: RadixInteger>(digits: Seq<char>)
    requires
        digits.len() > 0,
        all_digits(digits, 10),
    ensures
        parse_outcome::<T>(digits) is Ok <==> T::holds(digits_value(digits, 10) as int),
        parse_outcome::<T>(digits) matches Ok(v) ==> v.int_value() == digits_value(digits, 10),
{
    if digits.len() >= 2 {
        assert(is_digit(digits[1], 10));
    }
    lemma_known_prefix_unique(digits);
    assert(known_prefix(digits).len() == 0);
    assert(known_digits(digits) =~= digits);
    T::lemma_digits_outcome(digits, 10);
}

/// A format whose prefix is not at the start of the text gives no match,
/// whatever the radix and whatever the text holds; and only such a format
/// gives it.
pub proof fn lemma_no_prefix_no_match<T: FromStrRadix>(prefix: Seq<char>, radix: u32, s: Seq<char>)
    ensures
        parse_with_outcome::<T>(prefix, radix, s) == Err::<T, ParseError<T>>(
            ParseError::NoPrefixMatch,
        ) <==> !prefix.is_prefix_of(s),
{
}

/// Two parses of the same text end the same: whatever `parse` may return for
/// a text, it may return nothing else for it.
pub proof fn lemma_parse_repeats<T: FromStrRadix>(
    src: &str,
    first: Result<T, ParseError<T>>,
    second: Result<T, ParseError<T>>,
)
    requires
        call_ensures(<T as PrefixParse>::parse, (src,), first),
        call_ensures(<T as PrefixParse>::parse, (src,), second),
    ensures
        first == second,
{
}

/// Two parses of the same text with the same format end the same: whatever
/// `parse_with` may return for them, it may return nothing else.
pub proof fn lemma_parse_with_repeats<T: FromStrRadix>(
    fmt: &PrefixFmt,
    src: &str,
    first: Result<T, ParseError<T>>,
    second: Result<T, ParseError<T>>,
)
    requires
        call_ensures(<T as PrefixParse>::parse_with, (fmt, src), first),
        call_ensures(<T as PrefixParse>::parse_with, (fmt, src), second),
    ensures
        first == second,
{
}

} // verus!
