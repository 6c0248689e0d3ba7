//! The trusted boundary to `serde_json`. Each wrapper only moves values
//! across that boundary; what it returns is pinned to an uninterpreted name
//! for the outside function's result, which is a deterministic function of
//! the document alone, so verified callers can say exactly when they
//! succeed without this crate restating what `serde_json` computes.
use vstd::prelude::*;

use crate::json_text::{pair_views, seq_views};

verus! {

#[verifier::external_type_specification]
#[verifier::external_body]
pub struct ExJsonValue(serde_json::Value);

#[verifier::external_type_specification]
#[verifier::external_body]
pub struct ExJsonError(serde_json::Error);

/// What `serde_json::from_str` yields for a text: the parsed document, or
/// nothing when the text is not JSON.
pub uninterp spec fn spec_parse(s: Seq<char>) -> Option<serde_json::Value>;

/// What `serde_json::Value::get` yields for a key.
pub uninterp spec fn spec_field(v: serde_json::Value, key: Seq<char>) -> Option<serde_json::Value>;

/// What `serde_json::Value::is_null` yields.
pub uninterp spec fn spec_is_null(v: serde_json::Value) -> bool;

/// What `serde_json::Value::as_str` yields.
pub uninterp spec fn spec_as_str(v: serde_json::Value) -> Option<Seq<char>>;

/// What `serde_json::Value::as_u64` yields.
pub uninterp spec fn spec_as_u64(v: serde_json::Value) -> Option<u64>;

/// What `serde_json::Value::as_bool` yields.
pub uninterp spec fn spec_as_bool(v: serde_json::Value) -> Option<bool>;

/// What `serde_json::Value::as_array` yields when every item is a string:
/// the items' texts in order, and nothing otherwise.
pub uninterp spec fn spec_string_items(v: serde_json::Value) -> Option<Seq<Seq<char>>>;

/// What `serde_json::Value::as_object` yields when every member is a
/// string: the entries in the object's iteration order, nothing otherwise.
pub uninterp spec fn spec_string_entries(v: serde_json::Value) -> Option<
    Seq<(Seq<char>, Seq<char>)>,
>;

/// Relies on `serde_json::from_str`: parses text as one JSON document.
#[verifier::external_body]
pub(crate) fn parse_json(s: &str) -> (r: Result<serde_json::Value, serde_json::Error>)
    ensures
        (match r {
            Ok(v) => spec_parse(s@) == Some(v),
            Err(_) => spec_parse(s@) is None,
        }),
{
    serde_json::from_str(s)
}

/// Relies on `serde_json::Error`'s `Display`: the parse diagnostic as text.
#[verifier::external_body]
pub(crate) fn json_error_text(e: &serde_json::Error) -> String {
    e.to_string()
}

/// Relies on `serde_json::Value::get`: the member of an object under a key.
#[verifier::external_body]
pub(crate) fn json_field<'a>(v: &'a serde_json::Value, key: &str) -> (r: Option<
    &'a serde_json::Value,
>)
    ensures
        (match r {
            Some(m) => spec_field(*v, key@) == Some(*m),
            None => spec_field(*v, key@) is None,
        }),
{
    v.get(key)
}

/// Relies on `serde_json::Value::is_null`: whether the value is JSON null.
#[verifier::external_body]
pub(crate) fn json_is_null(v: &serde_json::Value) -> (r: bool)
    ensures
        r == spec_is_null(*v),
{
    v.is_null()
}

/// Relies on `serde_json::Value::as_str`: the text of a JSON string value.
#[verifier::external_body]
pub(crate) fn json_as_str<'a>(v: &'a serde_json::Value) -> (r: Option<&'a str>)
    ensures
        (match r {
            Some(s) => spec_as_str(*v) == Some(s@),
            None => spec_as_str(*v) is None,
        }),
{
    v.as_str()
}

/// Relies on `serde_json::Value::as_u64`: the value of a JSON unsigned integer.
#[verifier::external_body]
pub(crate) fn json_as_u64(v: &serde_json::Value) -> (r: Option<u64>)
    ensures
        r == spec_as_u64(*v),
{
    v.as_u64()
}

/// Relies on `serde_json::Value::as_bool`: the value of a JSON boolean.
#[verifier::external_body]
pub(crate) fn json_as_bool(v: &serde_json::Value) -> (r: Option<bool>)
    ensures
        r == spec_as_bool(*v),
{
    v.as_bool()
}

/// Relies on `serde_json::Value::as_array` and `Value::as_str`: the items of
/// a JSON array when every item is a string, and nothing otherwise.
#[verifier::external_body]
pub(crate) fn json_string_items(v: &serde_json::Value) -> (r: Option<Vec<String>>)
    ensures
        (match r {
            Some(items) => spec_string_items(*v) == Some(seq_views(items@)),
            None => spec_string_items(*v) is None,
        }),
{
    let items = v.as_array()?;
    let mut out: Vec<String> = Vec::new();
    for item in items {
        match item.as_str() {
            Some(s) => out.push(s.to_owned()),
            None => return None,
        }
    }
    Some(out)
}

/// Relies on `serde_json::Value::as_object` and `Value::as_str`: the entries
/// of a JSON object when every member is a string, and nothing otherwise.
#[verifier::external_body]
pub(crate) fn json_string_entries(v: &serde_json::Value) -> (r: Option<Vec<(String, String)>>)
    ensures
        (match r {
            Some(entries) => spec_string_entries(*v) == Some(pair_views(entries@)),
            None => spec_string_entries(*v) is None,
        }),
{
    let entries = v.as_object()?;
    let mut out: Vec<(String, String)> = Vec::new();
    for (key, member) in entries {
        match member.as_str() {
            Some(s) => out.push((key.clone(), s.to_owned())),
            None => return None,
        }
    }
    Some(out)
}

} // verus!
