//! The closed set of configuration-resolution failures.

use vstd::prelude::*;
use crate::numbers::ParseError;
use crate::parser::Flag;

verus! {

/// Where a numeric string came from; used only for error messages.
#[derive(Debug, PartialEq, Eq)]
pub enum NumberSource {
    /// A named environment-like variable.
    Env(String),
}

/// Why configuration resolution failed.
///
/// Both variants carry enough context (which option, which raw value, which
/// source) to render an actionable message; neither is ever recovered from
/// internally.
#[derive(Debug, PartialEq, Eq)]
pub enum OptionsError {
    /// A recognized option received a value outside its accepted vocabulary.
    BadArgument(Flag, String),
    /// A value expected to parse as a number did not: the raw text, its
    /// source, and the parse failure detail.
    FailedParse(String, NumberSource, ParseError),
}

} // verus!
