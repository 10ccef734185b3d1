//! JSON documents, handled through `serde_json`.
//!
//! A document is kept as a `serde_json::Value`. The verifier sees nothing
//! inside such a value; what the accessors return is named by the spec
//! functions below, and the contracts of the accessors are taken on trust.

use vstd::prelude::*;

verus! {

/// `serde_json::Value`, opaque to the verifier.
#[verifier::external_type_specification]
#[verifier::external_body]
pub struct ExJsonValue(serde_json::Value);

/// The document that `serde_json::from_str` reads from `text`, if it reads one.
pub uninterp spec fn json_parsed(text: Seq<char>) -> Option<serde_json::Value>;

/// The member that `Value::get` finds under `key`, if `doc` is an object that has one.
pub uninterp spec fn json_member(doc: serde_json::Value, key: Seq<char>) -> Option<serde_json::Value>;

/// The elements that `Value::as_array` gives, if `doc` is an array.
pub uninterp spec fn json_elements(doc: serde_json::Value) -> Option<Seq<serde_json::Value>>;

/// The text that `Value::as_str` gives, if `doc` is a string.
pub uninterp spec fn json_text(doc: serde_json::Value) -> Option<Seq<char>>;

/// The number that `Value::as_u64` gives, if `doc` is an integer that fits `u64`.
pub uninterp spec fn json_u64(doc: serde_json::Value) -> Option<u64>;

/// Calls `serde_json::from_str`. Trusted: the result is the document that
/// `json_parsed` names for this text, and `None` stands for any parse error.
#[verifier::external_body]
pub(crate) fn parse_document(text: &str) -> (doc: Option<serde_json::Value>)
    ensures
        doc == json_parsed(text@),
{
    match serde_json::from_str::<serde_json::Value>(text) {
        Ok(value) => Some(value),
        Err(_) => None,
    }
}

/// Calls `Value::get` with a string key. Trusted: the result is the member
/// that `json_member` names, and `None` where `doc` is no object or has no such key.
#[verifier::external_body]
pub(crate) fn member<'a>(doc: &'a serde_json::Value, key: &str) -> (found: Option<&'a serde_json::Value>)
    ensures
        found.is_some() == json_member(*doc, key@).is_some(),
        found.is_some() ==> *found.unwrap() == json_member(*doc, key@).unwrap(),
{
    doc.get(key)
}

/// Calls `Value::as_array`. Trusted: the result holds the elements that
/// `json_elements` names, in order, and is `None` where `doc` is no array.
#[verifier::external_body]
pub(crate) fn elements<'a>(doc: &'a serde_json::Value) -> (items: Option<&'a Vec<serde_json::Value>>)
    ensures
        items.is_some() == json_elements(*doc).is_some(),
        items.is_some() ==> items.unwrap()@ == json_elements(*doc).unwrap(),
{
    doc.as_array()
}

/// Calls `Value::as_str`. Trusted: the result is the text that `json_text`
/// names, and `None` where `doc` is no string.
#[verifier::external_body]
pub(crate) fn text_of<'a>(doc: &'a serde_json::Value) -> (text: Option<&'a str>)
    ensures
        text.is_some() == json_text(*doc).is_some(),
        text.is_some() ==> text.unwrap()@ == json_text(*doc).unwrap(),
{
    doc.as_str()
}

/// Calls `Value::as_u64`. Trusted: the result is the number that `json_u64`
/// names, and `None` where `doc` is no integer in the range of `u64`.
#[verifier::external_body]
pub(crate) fn u64_of(doc: &serde_json::Value) -> (number: Option<u64>)
    ensures
        number == json_u64(*doc),
{
    doc.as_u64()
}

} // verus!
