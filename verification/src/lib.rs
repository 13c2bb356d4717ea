//! Parsing of numeric literals that may carry a radix prefix.
//!
//! A literal such as `0x10`, `0o10`, `0b10` or `10` is told apart by its
//! prefix, the prefix is cut off, and the digits behind it are read in the
//! radix that the prefix stands for by the numeric type itself.

pub mod digits;
pub mod error;
pub mod format;
pub mod laws;
pub mod parse;
pub mod radix;
pub mod signed;
pub mod split;
pub mod text;
pub mod unsigned;

pub use error::ParseError;
pub use format::PrefixFmt;
pub use parse::PrefixParse;
pub use radix::{FromStrRadix, RadixInteger};
pub use split::split_known_prefix;
