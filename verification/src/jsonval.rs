//! A mathematical model of parsed JSON values, and the trusted surface of
//! the JSON library through which the extractor reads them.
//!
//! `json_model` names the shape of one in-memory value; `json_parse` names
//! what parsing a text yields. Both are functions of their argument alone:
//! the library parses deterministically, and a value's shape does not
//! change. Every accessor below states how its result relates to the model.

use vstd::prelude::*;

verus! {

/// The mathematical shape of one parsed JSON value. Numbers representable
/// as `u64` are modelled exactly; every other number is `OtherNum`.
pub ghost enum JsonVal {
    Null,
    Bool { b: bool },
    UInt { n: u64 },
    OtherNum,
    Str { s: Seq<char> },
    Arr { items: Seq<JsonVal> },
    Obj { fields: Map<Seq<char>, JsonVal> },
}

#[verifier::external_type_specification]
#[verifier::external_body]
pub struct ExJsonValue(serde_json::Value);

/// The shape of a parsed value.
pub uninterp spec fn json_model(v: serde_json::Value) -> JsonVal;

/// What parsing a JSON text yields, a function of the text alone.
pub uninterp spec fn json_parse(s: Seq<char>) -> Option<JsonVal>;

/// Relies on serde_json::from_str::<Value>: parses the text, `Err` exactly
/// when the text is not valid JSON.
#[verifier::external_body]
pub(crate) fn json_from_str(s: &str) -> (r: Option<serde_json::Value>)
    ensures
        (r is Some) == (json_parse(s@) is Some),
        r matches Some(v) ==> json_parse(s@) == Some(json_model(v)),
{
    serde_json::from_str::<serde_json::Value>(s).ok()
}

/// Relies on serde_json::Value::get with a string index: looks the key up
/// when the value is an object, `None` on any other value or missing key.
#[verifier::external_body]
pub(crate) fn json_get<'a>(v: &'a serde_json::Value, key: &str) -> (r: Option<&'a serde_json::Value>)
    ensures
        match json_model(*v) {
            JsonVal::Obj { fields } => {
                if fields.contains_key(key@) {
                    r matches Some(w) && json_model(*w) == fields[key@]
                } else {
                    r is None
                }
            },
            _ => r is None,
        },
{
    v.get(key)
}

/// Relies on serde_json::Value::as_str: the content of a string value,
/// `None` on every other value.
#[verifier::external_body]
pub(crate) fn json_as_str<'a>(v: &'a serde_json::Value) -> (r: Option<&'a str>)
    ensures
        match json_model(*v) {
            JsonVal::Str { s } => r matches Some(t) && t@ == s,
            _ => r is None,
        },
{
    v.as_str()
}

/// Relies on serde_json::Value::as_u64: a number exactly when it is
/// representable as `u64`, `None` on every other value.
#[verifier::external_body]
pub(crate) fn json_as_u64(v: &serde_json::Value) -> (r: Option<u64>)
    ensures
        match json_model(*v) {
            JsonVal::UInt { n } => r == Some(n),
            _ => r is None,
        },
{
    v.as_u64()
}

/// Relies on serde_json::Value::as_array: the elements of an array value,
/// `None` on every other value.
#[verifier::external_body]
pub(crate) fn json_as_array<'a>(v: &'a serde_json::Value) -> (r: Option<&'a Vec<serde_json::Value>>)
    ensures
        match json_model(*v) {
            JsonVal::Arr { items } => r matches Some(a) && a@.len() == items.len() && forall|
                i: int,
            | 0 <= i < items.len() ==> json_model(a@[i]) == items[i],
            _ => r is None,
        },
{
    v.as_array()
}

// --- reading the model, as mathematics ---

/// Field lookup on an object-shaped value.
pub open spec fn obj_get(j: JsonVal, key: Seq<char>) -> Option<JsonVal> {
    match j {
        JsonVal::Obj { fields } => if fields.contains_key(key) {
            Some(fields[key])
        } else {
            None
        },
        _ => None,
    }
}

/// A string field of an object-shaped value.
pub open spec fn get_str_field(j: JsonVal, key: Seq<char>) -> Option<Seq<char>> {
    match obj_get(j, key) {
        Some(JsonVal::Str { s }) => Some(s),
        _ => None,
    }
}

/// A `u64` field of an object-shaped value.
pub open spec fn get_u64_field(j: JsonVal, key: Seq<char>) -> Option<u64> {
    match obj_get(j, key) {
        Some(JsonVal::UInt { n }) => Some(n),
        _ => None,
    }
}

// --- reading values, as verified code ---

/// A string field of a parsed value, owned.
pub(crate) fn read_str_field(v: &serde_json::Value, key: &str) -> (r: Option<String>)
    ensures
        crate::models::view_opt(r) == get_str_field(json_model(*v), key@),
{
    match json_get(v, key) {
        Some(w) => match json_as_str(w) {
            Some(s) => Some(s.to_owned()),
            None => None,
        },
        None => None,
    }
}

/// A `u64` field of a parsed value.
pub(crate) fn read_u64_field(v: &serde_json::Value, key: &str) -> (r: Option<u64>)
    ensures
        r == get_u64_field(json_model(*v), key@),
{
    match json_get(v, key) {
        Some(w) => json_as_u64(w),
        None => None,
    }
}

} // verus!
