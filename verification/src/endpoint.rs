//! The address of the storage control plane's REST API.

use crate::error::{UpgradeError, UpgradeErrorView};
use vstd::prelude::*;

verus! {

/// Whether the `url` crate parses `text` as an absolute URL.
pub uninterp spec fn is_absolute_url(text: Seq<char>) -> bool;

/// Parses `text` with `url::Url::try_from`, which is `url::Url::parse`.
///
/// Not proved: that success depends on the text alone. Whether the parse
/// succeeds is what [`is_absolute_url`] names. Of the URL that comes back
/// nothing is claimed.
#[verifier::external_body]
pub(crate) fn parse_url(text: &str) -> (parsed: Result<url::Url, url::ParseError>)
    ensures
        (parsed is Ok) <==> is_absolute_url(text@),
{
    url::Url::try_from(text)
}

/// Names the endpoint in the error where it could not be parsed, and hands
/// the URL on where it could.
pub fn endpoint_from(rest_endpoint: &str, parsed: Result<url::Url, url::ParseError>) -> (endpoint:
    Result<url::Url, UpgradeError>)
    ensures
        match parsed {
            Ok(url) => endpoint == Ok::<url::Url, UpgradeError>(url),
            Err(_) => endpoint matches Err(error) && error@ == (UpgradeErrorView::RestUrlParse {
                rest_endpoint: rest_endpoint@,
            }),
        },
{
    match parsed {
        Ok(url) => Ok(url),
        Err(_) => Err(UpgradeError::RestUrlParse { rest_endpoint: String::from_str(rest_endpoint) }),
    }
}

/// Parses the address of the storage control plane's REST API.
///
/// It succeeds exactly on the strings that the `url` crate takes for an
/// absolute URL, and otherwise fails with [`UpgradeError::RestUrlParse`], which
/// names the string.
pub fn parse_rest_endpoint(rest_endpoint: &str) -> (endpoint: Result<url::Url, UpgradeError>)
    ensures
        (endpoint is Ok) <==> is_absolute_url(rest_endpoint@),
        endpoint matches Err(error) ==> error@ == (UpgradeErrorView::RestUrlParse {
            rest_endpoint: rest_endpoint@,
        }),
{
    let parsed = parse_url(rest_endpoint);
    endpoint_from(rest_endpoint, parsed)
}

} // verus!
