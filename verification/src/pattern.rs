//! Regular expressions, as the `regex` crate matches them.
//!
//! What a regular expression matches is the business of the `regex` crate.
//! This module gives the crate's answer a name, so that the decisions which
//! rest on it can say exactly how, and turns the crate's error into the
//! upgrade's own.

use crate::error::{UpgradeError, UpgradeErrorView};
use vstd::prelude::*;

verus! {

/// What `regex::Regex` finds for `expression` in `haystack`: `None` where
/// the expression does not compile, and else whether the expression matches
/// anywhere in the haystack.
pub uninterp spec fn text_match(expression: Seq<char>, haystack: Seq<char>) -> Option<bool>;

/// What `regex::bytes::Regex` finds for `expression` in `haystack`: `None`
/// where the expression does not compile, and else whether the expression
/// matches anywhere in the haystack.
pub uninterp spec fn bytes_match(expression: Seq<char>, haystack: Seq<u8>) -> Option<bool>;

/// The answer of the `regex` crate without the details of its error.
pub open spec fn match_view(outcome: Result<bool, regex::Error>) -> Option<bool> {
    match outcome {
        Ok(found) => Some(found),
        Err(_) => None,
    }
}

/// Compiles `expression` with `regex::Regex::new` and asks
/// `regex::Regex::is_match` whether it matches anywhere in `haystack`.
///
/// Not proved: that the answer depends on the two strings alone. It is the
/// value that [`text_match`] names; where the expression does not
/// compile, the error of `Regex::new` comes back.
#[verifier::external_body]
pub(crate) fn is_match_text(expression: &str, haystack: &str) -> (outcome: Result<
    bool,
    regex::Error,
>)
    ensures
        match_view(outcome) == text_match(expression@, haystack@),
{
    match regex::Regex::new(expression) {
        Ok(regex) => Ok(regex.is_match(haystack)),
        Err(error) => Err(error),
    }
}

/// Compiles `expression` with `regex::bytes::Regex::new` and asks
/// `regex::bytes::Regex::is_match` whether it matches anywhere in `haystack`.
///
/// Not proved: that the answer depends on the expression and the bytes
/// alone. It is the value that [`bytes_match`] names; where the expression
/// does not compile, the error of `Regex::new` comes back.
#[verifier::external_body]
pub(crate) fn is_match_bytes(expression: &str, haystack: &[u8]) -> (outcome: Result<
    bool,
    regex::Error,
>)
    ensures
        match_view(outcome) == bytes_match(expression@, haystack@),
{
    match regex::bytes::Regex::new(expression) {
        Ok(regex) => Ok(regex.is_match(haystack)),
        Err(error) => Err(error),
    }
}

/// What a search means to the upgrade: the answer, or the fact that
/// `expression` is no regular expression.
pub open spec fn search_outcome(expression: Seq<char>, found: Option<bool>) -> Result<
    bool,
    UpgradeErrorView,
> {
    match found {
        Some(found) => Ok(found),
        None => Err(UpgradeErrorView::RegexCompile { expression }),
    }
}

/// Turns the answer of the `regex` crate for `expression` into the
/// upgrade's own: a failure to compile becomes [`UpgradeError::RegexCompile`],
/// which names the expression.
pub fn search_result(expression: String, outcome: Result<bool, regex::Error>) -> (found: Result<
    bool,
    UpgradeError,
>)
    ensures
        crate::error::flag_view(found) == search_outcome(expression@, match_view(outcome)),
{
    match outcome {
        Ok(found) => Ok(found),
        Err(_) => Err(UpgradeError::RegexCompile { expression }),
    }
}

/// Whether `expression` matches anywhere in the text `haystack`.
pub fn search_text(expression: String, haystack: &str) -> (found: Result<bool, UpgradeError>)
    ensures
        crate::error::flag_view(found) == search_outcome(
            expression@,
            text_match(expression@, haystack@),
        ),
{
    let outcome = is_match_text(expression.as_str(), haystack);
    search_result(expression, outcome)
}

/// Whether `expression` matches anywhere in the bytes `haystack`.
pub fn search_bytes(expression: String, haystack: &[u8]) -> (found: Result<bool, UpgradeError>)
    ensures
        crate::error::flag_view(found) == search_outcome(
            expression@,
            bytes_match(expression@, haystack@),
        ),
{
    let outcome = is_match_bytes(expression.as_str(), haystack);
    search_result(expression, outcome)
}

} // verus!
