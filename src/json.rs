//! Reading loosely-typed JSON documents.
//!
//! Parsing and the accessors of `serde_json::Value` come from `serde_json`;
//! each one is named here by what it returns, so that the readers built on
//! top of them can state exactly which parts of a document they consume.
use vstd::prelude::*;

verus! {

#[verifier::external_type_specification]
#[verifier::external_body]
pub struct ExJsonValue(serde_json::Value);

#[verifier::external_type_specification]
#[verifier::external_body]
pub struct ExJsonNumber(serde_json::Number);

/// The document that `serde_json::from_str` reads from a text, if any.
pub uninterp spec fn json_document(text: Seq<char>) -> Option<serde_json::Value>;

/// The document that `serde_yaml::from_str` reads from a YAML text, if any.
pub uninterp spec fn yaml_document(text: Seq<char>) -> Option<serde_json::Value>;

/// The member stored under `key`, when the value is an object holding it.
pub uninterp spec fn json_member(v: serde_json::Value, key: Seq<char>) -> Option<serde_json::Value>;

/// The text of a value, when it is a JSON string.
pub uninterp spec fn json_text(v: serde_json::Value) -> Option<Seq<char>>;

/// The value as an unsigned integer, when it is a number that is one.
pub uninterp spec fn json_unsigned(v: serde_json::Value) -> Option<u64>;

/// The number held by a value, when it is a JSON number.
pub uninterp spec fn json_number(v: serde_json::Value) -> Option<serde_json::Number>;

/// The elements of a value, when it is a JSON array.
pub uninterp spec fn json_elements(v: serde_json::Value) -> Option<Seq<serde_json::Value>>;

/// Whether a value is a JSON object.
pub uninterp spec fn json_is_object(v: serde_json::Value) -> bool;

pub open spec fn text_view(o: Option<String>) -> Option<Seq<char>> {
    match o {
        Some(s) => Some(s@),
        None => None,
    }
}

/// Relies on `serde_json::from_str`: the document read depends on the text alone.
#[verifier::external_body]
pub(crate) fn parse_json(text: &str) -> (r: Option<serde_json::Value>)
    ensures
        r == json_document(text@),
{
    serde_json::from_str::<serde_json::Value>(text).ok()
}

/// Relies on `serde_yaml::from_str`, read into a JSON value: the document
/// depends on the text alone.
#[verifier::external_body]
pub(crate) fn parse_yaml(text: &str) -> (r: Option<serde_json::Value>)
    ensures
        r == yaml_document(text@),
{
    serde_yaml::from_str::<serde_json::Value>(text).ok()
}

/// Relies on `serde_json::Value::get` with a string key: an object's member.
#[verifier::external_body]
pub(crate) fn member(v: &serde_json::Value, key: &str) -> (r: Option<serde_json::Value>)
    ensures
        r == json_member(*v, key@),
{
    v.get(key).cloned()
}

/// Relies on `serde_json::Value::as_str`: the text of a string value.
#[verifier::external_body]
pub(crate) fn as_text(v: &serde_json::Value) -> (r: Option<String>)
    ensures
        text_view(r) == json_text(*v),
{
    v.as_str().map(|s| s.to_string())
}

/// Relies on `serde_json::Value::as_u64`: a number that is an unsigned integer.
#[verifier::external_body]
pub(crate) fn as_unsigned(v: &serde_json::Value) -> (r: Option<u64>)
    ensures
        r == json_unsigned(*v),
{
    v.as_u64()
}

/// Relies on `serde_json::Value::as_number`: the number of a number value.
#[verifier::external_body]
pub(crate) fn as_number(v: &serde_json::Value) -> (r: Option<serde_json::Number>)
    ensures
        r == json_number(*v),
{
    v.as_number().cloned()
}

/// Relies on `serde_json::Value::as_array`: the elements of an array value.
#[verifier::external_body]
pub(crate) fn as_elements(v: &serde_json::Value) -> (r: Option<Vec<serde_json::Value>>)
    ensures
        match r {
            Some(a) => json_elements(*v) == Some(a@),
            None => json_elements(*v).is_none(),
        },
{
    v.as_array().cloned()
}

/// Relies on `serde_json::Value::is_object`.
#[verifier::external_body]
pub(crate) fn is_object(v: &serde_json::Value) -> (r: bool)
    ensures
        r == json_is_object(*v),
{
    v.is_object()
}

/// The text under `key`, when the member is present and is a string.
pub open spec fn text_member(v: serde_json::Value, key: Seq<char>) -> Option<Seq<char>> {
    match json_member(v, key) {
        Some(m) => json_text(m),
        None => None,
    }
}

/// The unsigned integer under `key`, when the member is present and is one.
pub open spec fn unsigned_member(v: serde_json::Value, key: Seq<char>) -> Option<u64> {
    match json_member(v, key) {
        Some(m) => json_unsigned(m),
        None => None,
    }
}

pub fn text_field(v: &serde_json::Value, key: &str) -> (r: Option<String>)
    ensures
        text_view(r) == text_member(*v, key@),
{
    match member(v, key) {
        Some(m) => as_text(&m),
        None => None,
    }
}

pub fn unsigned_field(v: &serde_json::Value, key: &str) -> (r: Option<u64>)
    ensures
        r == unsigned_member(*v, key@),
{
    match member(v, key) {
        Some(m) => as_unsigned(&m),
        None => None,
    }
}

/// Whether two texts hold the same characters.
pub fn same_text(a: &str, b: &str) -> (r: bool)
    ensures
        r == (a@ == b@),
{
    let x = String::from_str(a);
    let y = String::from_str(b);
    x == y
}

} // verus!
