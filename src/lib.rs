//! A buffered, line-oriented scanner of whitespace-separated tokens that
//! turns them into typed values, tuples of them, or sequences of either.
//!
//! Lines are handed to an [`AsciiScanner`] with `push_line`; reads take
//! tokens from what was handed over. A read that finds no complete token
//! fails with [`ScanError::Exhausted`] and consumes nothing, so a caller that
//! reads from a stream loads one more line and reads again.
pub mod tokens;
pub mod convert;
pub mod scanner;
pub mod parse;
pub mod laws;

pub use parse::Parseable;
pub use scanner::{AsciiScanner, ScanError, Scanner, ScannerIter};
