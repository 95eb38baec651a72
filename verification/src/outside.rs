//! The types of other crates that pass through the upgrade's decisions.
//!
//! Nothing is known of what is inside a value of these types. They are
//! carried from the call that yields them to the caller that needs them.

use vstd::prelude::*;

verus! {

/// The error of the `regex` crate: the expression has a syntax error, or it
/// compiles to a program over the size limit.
#[verifier::external_type_specification]
#[verifier::external_body]
pub struct ExRegexError(regex::Error);

/// The error of the `serde_yaml` crate: the bytes are not one YAML document.
#[verifier::external_type_specification]
#[verifier::external_body]
pub struct ExYamlError(serde_yaml::Error);

/// A parsed URL of the `url` crate.
#[verifier::external_type_specification]
#[verifier::external_body]
pub struct ExUrl(url::Url);

/// The reason why the `url` crate could not parse a string as a URL.
#[verifier::external_type_specification]
#[verifier::external_body]
pub struct ExUrlParseError(url::ParseError);

} // verus!
