//! JSON texts stored in the shop's database, through `serde_json`.
use vstd::prelude::*;

use crate::text::{opt_text, texts};

verus! {

/// What `serde_json::from_str::<Vec<String>>` makes of a text, if it accepts it.
pub uninterp spec fn json_string_list(text: Seq<char>) -> Option<Seq<Seq<char>>>;

/// What `serde_json::to_string` writes for a list of strings.
pub uninterp spec fn json_text_of_strings(items: Seq<Seq<char>>) -> Seq<char>;

/// Calls `serde_json::from_str::<Vec<String>>`; claims that the result is the
/// one named by `json_string_list` for the same text (an error becomes `None`).
#[verifier::external_body]
pub fn parse_string_list(text: &str) -> (r: Option<Vec<String>>)
    ensures
        r is Some <==> json_string_list(text@) is Some,
        r matches Some(v) ==> json_string_list(text@) == Some(texts(v@)),
{
    serde_json::from_str::<Vec<String>>(text).ok()
}

/// Calls `serde_json::to_string` on a list of strings, which cannot fail for
/// that type. Claims that the text is the one named by `json_text_of_strings`,
/// and that `serde_json::from_str` reads the same list back from it: the JSON
/// string escapes that `serde_json` writes are the ones it reads.
#[verifier::external_body]
pub fn encode_string_list(items: &Vec<String>) -> (text: String)
    ensures
        text@ == json_text_of_strings(texts(items@)),
        json_string_list(text@) == Some(texts(items@)),
{
    serde_json::to_string(items).unwrap()
}

/// The string members of one element of a JSON array of assets.
#[derive(Debug, Clone)]
pub struct AssetEntry {
    /// The `url` member, when it is a string.
    pub url: Option<String>,
    /// The `asset_type` member, when it is a string.
    pub asset_type: Option<String>,
    /// The `alt` member, when it is a string.
    pub alt: Option<String>,
}

/// The members of an asset entry, taken as character sequences.
pub type AssetEntryView = (Option<Seq<char>>, Option<Seq<char>>, Option<Seq<char>>);

impl View for AssetEntry {
    type V = AssetEntryView;

    open spec fn view(&self) -> AssetEntryView {
        (opt_text(self.url), opt_text(self.asset_type), opt_text(self.alt))
    }
}

/// What `serde_json::from_str::<Vec<serde_json::Value>>` makes of a text, if
/// it accepts it, with each element reduced to its `url`, `asset_type` and
/// `alt` members where these are strings.
pub uninterp spec fn json_asset_entries(text: Seq<char>) -> Option<Seq<AssetEntryView>>;

/// Calls `serde_json::from_str::<Vec<serde_json::Value>>` and reads the
/// `url`, `asset_type` and `alt` string members of each element (indexing a
/// value that is not an object, or lacks the member, gives `Null`, which is
/// no string). Claims that the result is the one named by
/// `json_asset_entries` for the same text.
#[verifier::external_body]
pub fn parse_asset_entries(text: &str) -> (r: Option<Vec<AssetEntry>>)
    ensures
        r is Some <==> json_asset_entries(text@) is Some,
        r matches Some(v) ==> json_asset_entries(text@) == Some(v@.map_values(|e: AssetEntry| e@)),
{
    serde_json::from_str::<Vec<serde_json::Value>>(text).ok().map(|values| values.iter().map(|v| AssetEntry {
        url: v["url"].as_str().map(str::to_string),
        asset_type: v["asset_type"].as_str().map(str::to_string),
        alt: v["alt"].as_str().map(str::to_string),
    }).collect())
}

/// `serde_json::Value`, carried through as an opaque value.
#[verifier::external_type_specification]
#[verifier::external_body]
pub struct ExJsonValue(serde_json::Value);

/// What `serde_json::from_str::<serde_json::Value>` makes of a text, if it
/// accepts it.
pub uninterp spec fn json_value_of(text: Seq<char>) -> Option<serde_json::Value>;

/// Calls `serde_json::from_str::<serde_json::Value>`; claims that the result
/// is the one named by `json_value_of` for the same text (an error becomes
/// `None`).
#[verifier::external_body]
pub fn parse_json_value(text: &str) -> (r: Option<serde_json::Value>)
    ensures
        r == json_value_of(text@),
{
    serde_json::from_str::<serde_json::Value>(text).ok()
}

} // verus!
