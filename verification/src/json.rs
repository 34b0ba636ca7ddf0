//! The calls into `serde_json`, each from text to plain values. Nothing here
//! is proved: every contract names the value that the parser or the printer
//! yields for the given text, and the modules that decide work from those
//! names.

use vstd::prelude::*;
use crate::clip::string_views;
use crate::text::{opt_view, opt_views};

verus! {

/// Whether `text` is a JSON document.
pub uninterp spec fn json_is_document(text: Seq<char>) -> bool;

/// The string stored under `key` in the JSON object `text`; `None` when
/// `text` is no JSON document, no object, lacks the key, or holds something
/// other than a string there.
pub uninterp spec fn json_text_member(text: Seq<char>, key: Seq<char>) -> Option<Seq<char>>;

/// The array stored under `key` in the JSON object `text`, each element that
/// is a string given as such and every other element as `None`.
pub uninterp spec fn json_list_member(text: Seq<char>, key: Seq<char>) -> Option<
    Seq<Option<Seq<char>>>,
>;

/// The unsigned integer stored under `key` in the JSON object `text`.
pub uninterp spec fn json_u64_member(text: Seq<char>, key: Seq<char>) -> Option<u64>;

/// `s` as a JSON string literal, quoted and escaped.
pub uninterp spec fn json_quoted(s: Seq<char>) -> Option<Seq<char>>;

/// A list of strings as a JSON array.
pub uninterp spec fn json_string_list(items: Seq<Seq<char>>) -> Option<Seq<char>>;

/// What `text` holds when read as an optional list of strings: the outer
/// `None` when it is neither `null` nor an array of strings.
pub uninterp spec fn json_optional_list(text: Seq<char>) -> Option<Option<Seq<Seq<char>>>>;

/// Calls `serde_json::from_str` for a `serde_json::Value` and reports
/// whether it succeeded.
#[verifier::external_body]
pub(crate) fn is_document(text: &str) -> (valid: bool)
    ensures
        valid == json_is_document(text@),
{
    serde_json::from_str::<serde_json::Value>(text).is_ok()
}

/// Calls `serde_json::from_str` for a `serde_json::Value`, then `Value::get`
/// and `Value::as_str` on the result. The contract names what they yield.
#[verifier::external_body]
pub(crate) fn text_member(text: &str, key: &str) -> (member: Option<String>)
    ensures
        opt_view(member) == json_text_member(text@, key@),
{
    let value: serde_json::Value = serde_json::from_str(text).ok()?;
    let member: &str = value.get(key)?.as_str()?;
    Some(member.to_string())
}

/// Calls `serde_json::from_str` for a `serde_json::Value`, then `Value::get`
/// and `Value::as_array`, and `Value::as_str` on each element. The contract
/// names what they yield.
#[verifier::external_body]
pub(crate) fn list_member(text: &str, key: &str) -> (member: Option<Vec<Option<String>>>)
    ensures
        match member {
            Some(items) => json_list_member(text@, key@) == Some(opt_views(items@)),
            None => json_list_member(text@, key@) is None,
        },
{
    let value: serde_json::Value = serde_json::from_str(text).ok()?;
    let items: &Vec<serde_json::Value> = value.get(key)?.as_array()?;
    let mut member: Vec<Option<String>> = Vec::new();
    for item in items {
        member.push(item.as_str().map(str::to_string));
    }
    Some(member)
}

/// Calls `serde_json::from_str` for a `serde_json::Value`, then `Value::get`
/// and `Value::as_u64`. The contract names what they yield.
#[verifier::external_body]
pub(crate) fn u64_member(text: &str, key: &str) -> (member: Option<u64>)
    ensures
        member == json_u64_member(text@, key@),
{
    let value: serde_json::Value = serde_json::from_str(text).ok()?;
    value.get(key)?.as_u64()
}

/// Calls `serde_json::to_string` on a string slice. The contract names the
/// literal it prints.
#[verifier::external_body]
pub(crate) fn quote(s: &str) -> (quoted: Option<String>)
    ensures
        opt_view(quoted) == json_quoted(s@),
{
    serde_json::to_string(s).ok()
}

/// Calls `serde_json::to_string` on a list of strings. The contract names
/// the array it prints.
#[verifier::external_body]
pub(crate) fn string_list(items: &Vec<String>) -> (printed: Option<String>)
    ensures
        opt_view(printed) == json_string_list(string_views(items@)),
{
    serde_json::to_string(items).ok()
}

/// Calls `serde_json::from_str` for an optional list of strings. The
/// contract names what it yields; a failure is the outer `None`.
#[verifier::external_body]
pub(crate) fn optional_list(text: &str) -> (parsed: Option<Option<Vec<String>>>)
    ensures
        match parsed {
            Some(Some(items)) => json_optional_list(text@) == Some(Some(string_views(items@))),
            Some(None) => json_optional_list(text@) == Some(None::<Seq<Seq<char>>>),
            None => json_optional_list(text@) is None,
        },
{
    serde_json::from_str::<Option<Vec<String>>>(text).ok()
}

} // verus!
