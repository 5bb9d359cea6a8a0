//! Regular expressions of the `regex` crate.

use regex::Error as RegexError;
use regex::Regex;
use vstd::prelude::*;

verus! {

/// A compiled regular expression.
#[verifier::external_type_specification]
#[verifier::external_body]
pub struct ExRegex(Regex);

/// Why a pattern could not be compiled.
#[verifier::external_type_specification]
#[verifier::external_body]
pub struct ExRegexError(RegexError);

/// Whether a pattern can be compiled: it is valid, and what it compiles to is within the
/// default size limit.
pub uninterp spec fn compiles(pattern: Seq<char>) -> bool;

/// Calls `Regex::new`. Trusted: whether the pattern is accepted depends on the pattern
/// alone.
#[verifier::external_body]
pub(crate) fn compile(pattern: &str) -> (r: Result<Regex, RegexError>)
    ensures
        r is Ok <==> compiles(pattern@),
{
    Regex::new(pattern)
}

/// Calls `Regex::is_match`. Trusted: nothing is claimed of the answer.
#[verifier::external_body]
pub(crate) fn is_match(regex: &Regex, text: &str) -> (found: bool) {
    regex.is_match(text)
}

/// Calls `Regex::clone`. Trusted: nothing is claimed of the copy.
#[verifier::external_body]
pub(crate) fn share(regex: &Regex) -> (copy: Regex) {
    regex.clone()
}

} // verus!
