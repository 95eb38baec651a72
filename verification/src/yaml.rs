//! Strings out of YAML documents, as the `serde_yaml` crate reads them.

use crate::error::{text_view, UpgradeError, UpgradeErrorView};
use crate::text::string_views;
use vstd::prelude::*;

verus! {

/// What `serde_yaml` finds in `document` when it goes down the mappings of
/// the document by `keys`, one key after the other: `None` where the bytes
/// are not one YAML document, `Some(None)` where they are but no string
/// stands at that place, and else the string.
pub uninterp spec fn yaml_text_at(document: Seq<u8>, keys: Seq<Seq<char>>) -> Option<
    Option<Seq<char>>,
>;

/// The answer of `serde_yaml` without the details of its error.
pub open spec fn lookup_view(outcome: Result<Option<String>, serde_yaml::Error>) -> Option<
    Option<Seq<char>>,
> {
    match outcome {
        Ok(Some(text)) => Some(Some(text@)),
        Ok(None) => Some(None),
        Err(_) => None,
    }
}

/// Parses `document` with `serde_yaml::from_slice` into a
/// `serde_yaml::Value`, indexes the value with each key in turn, which
/// yields null where a key is missing or the value is no mapping, and takes
/// the string of what it arrives at with `serde_yaml::Value::as_str`.
///
/// Not proved: that the answer depends on the bytes and the keys alone. It
/// is the value that [`yaml_text_at`] names; where the bytes do not parse,
/// the error of `from_slice` comes back.
#[verifier::external_body]
pub(crate) fn text_at(document: &[u8], keys: &Vec<String>) -> (outcome: Result<
    Option<String>,
    serde_yaml::Error,
>)
    ensures
        lookup_view(outcome) == yaml_text_at(document@, string_views(keys@)),
{
    let document: serde_yaml::Value = serde_yaml::from_slice(document)?;
    let mut found = &document;
    for key in keys {
        found = &found[key.as_str()];
    }
    Ok(found.as_str().map(String::from))
}

/// What a lookup in the YAML file at `filepath` means to the upgrade: the
/// string, or the fact that the file is not YAML, or the fact that no string
/// stands at `yaml_path`.
pub open spec fn required_text(
    filepath: Seq<char>,
    yaml_path: Seq<char>,
    found: Option<Option<Seq<char>>>,
) -> Result<Seq<char>, UpgradeErrorView> {
    match found {
        None => Err(UpgradeErrorView::YamlParseFromFile { filepath }),
        Some(None) => Err(UpgradeErrorView::YamlStructure { yaml_path }),
        Some(Some(text)) => Ok(text),
    }
}

/// Turns the answer of `serde_yaml` for the file at `filepath` into the
/// upgrade's own. `yaml_path` is how the errors call the place that was
/// looked at.
pub fn lookup_result(
    filepath: String,
    yaml_path: String,
    outcome: Result<Option<String>, serde_yaml::Error>,
) -> (text: Result<String, UpgradeError>)
    ensures
        text_view(text) == required_text(filepath@, yaml_path@, lookup_view(outcome)),
{
    match outcome {
        Err(_) => Err(UpgradeError::YamlParseFromFile { filepath }),
        Ok(None) => Err(UpgradeError::YamlStructure { yaml_path }),
        Ok(Some(text)) => Ok(text),
    }
}

/// The string that stands under `keys` in the YAML `document`, which was
/// read from the file at `filepath`.
pub fn read_text(filepath: String, yaml_path: String, document: &[u8], keys: &Vec<String>) -> (text:
    Result<String, UpgradeError>)
    ensures
        text_view(text) == required_text(
            filepath@,
            yaml_path@,
            yaml_text_at(document@, string_views(keys@)),
        ),
{
    let outcome = text_at(document, keys);
    lookup_result(filepath, yaml_path, outcome)
}

} // verus!
