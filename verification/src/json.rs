//! The JSON documents that the platform answers with, read through
//! `serde_json`.
//!
//! `serde_json` parses; nothing here is proved about how. What the rest of
//! the library relies on is written down in this file: a model of a parsed
//! value, and for each `serde_json` function that is called, what the call
//! returns in terms of that model.

use vstd::prelude::*;

verus! {

/// A JSON value as the library sees it. Numbers are not told apart: nothing
/// here reads one.
pub enum Json {
    Null,
    Bool(bool),
    Number,
    Text(Seq<char>),
    Array(Seq<Json>),
    Object(Map<Seq<char>, Json>),
}

impl Json {
    /// The member `key` of an object. `Null` where `self` is no object or has
    /// no such member.
    pub open spec fn member(self, key: Seq<char>) -> Json {
        match self {
            Json::Object(members) => if members.contains_key(key) {
                members[key]
            } else {
                Json::Null
            },
            _ => Json::Null,
        }
    }

    /// The characters of a string value; `None` for every other value.
    pub open spec fn text(self) -> Option<Seq<char>> {
        match self {
            Json::Text(chars) => Some(chars),
            _ => None,
        }
    }
}

#[verifier::external_type_specification]
#[verifier::external_body]
pub struct ExValue(serde_json::Value);

#[verifier::external_type_specification]
#[verifier::external_body]
pub struct ExJsonError(serde_json::Error);

/// The model of a `serde_json::Value`: `Null`, `Bool`, `String`, `Array` and
/// `Object` map to the variant of the same kind with their contents modelled
/// in turn, and every `Number` maps to `Json::Number`.
pub uninterp spec fn json_view(value: serde_json::Value) -> Json;

/// The model of the value that `serde_json::from_slice` parses from `bytes`,
/// or `None` where it reports an error.
pub uninterp spec fn json_parse(bytes: Seq<u8>) -> Option<Json>;

/// The models of the values in `items`, in order.
pub open spec fn json_views(items: Seq<serde_json::Value>) -> Seq<Json> {
    items.map_values(|item: serde_json::Value| json_view(item))
}

/// Calls `serde_json::from_slice` for a `serde_json::Value`. Trusted: the
/// result is a function of the bytes alone, named `json_parse`; an `Err` is
/// returned exactly where `json_parse` is `None`.
#[verifier::external_body]
pub(crate) fn parse_value(bytes: &[u8]) -> (r: Result<serde_json::Value, serde_json::Error>)
    ensures
        match r {
            Ok(value) => json_parse(bytes@) == Some(json_view(value)),
            Err(_) => json_parse(bytes@) is None,
        },
{
    serde_json::from_slice::<serde_json::Value>(bytes)
}

/// Calls `serde_json::Value::as_array`. Trusted: `Some` with the elements
/// exactly for an array, `None` for every other value.
#[verifier::external_body]
pub(crate) fn array_items(value: &serde_json::Value) -> (r: Option<&Vec<serde_json::Value>>)
    ensures
        match r {
            Some(items) => json_view(*value) == Json::Array(json_views(items@)),
            None => !(json_view(*value) is Array),
        },
{
    value.as_array()
}

/// Indexes a `serde_json::Value` by a string (`Index<&str>`). Trusted: the
/// member of that name where the value is an object that has it, and a null
/// value otherwise; the call never panics.
#[verifier::external_body]
pub(crate) fn member_of<'a>(value: &'a serde_json::Value, key: &str) -> (r: &'a serde_json::Value)
    ensures
        json_view(*r) == json_view(*value).member(key@),
{
    &value[key]
}

/// Calls `serde_json::Value::as_str`. Trusted: `Some` with the characters
/// exactly for a string, `None` for every other value.
#[verifier::external_body]
pub(crate) fn text_of(value: &serde_json::Value) -> (r: Option<&str>)
    ensures
        match r {
            Some(text) => json_view(*value) == Json::Text(text@),
            None => !(json_view(*value) is Text),
        },
{
    value.as_str()
}

} // verus!
