//! A mathematical model of JSON documents, and the trusted boundary to
//! `serde_json`, which does the actual parsing.
//!
//! The dispatch logic never inspects a `serde_json::Value` directly: every
//! inspection goes through a small wrapper whose contract is stated over
//! [`value_model`], the mathematical tree a value holds.

use vstd::prelude::*;

verus! {

/// A JSON document as a mathematical value.
///
/// Numbers are split by what the runtime can read from them: `UInt(n)` is a
/// number exactly representable as a `u64` (the only numeric shape the
/// envelope needs), and `OtherNum` stands for every other JSON number
/// (negative, fractional, or out of `u64` range).
pub enum JVal {
    Null,
    Bool(bool),
    UInt(u64),
    OtherNum,
    Str(Seq<char>),
    Arr(Seq<JVal>),
    Obj(Map<Seq<char>, JVal>),
}

/// The tree held by a `serde_json::Value`.
///
/// A `Value` is an ordinary immutable tree, so its contents are a function of
/// the value alone; this name lets the wrappers below state exactly which
/// part of the tree each call reads.
pub uninterp spec fn value_model(v: serde_json::Value) -> JVal;

/// What `serde_json::from_slice::<serde_json::Value>` parses from a byte
/// string: `None` when the bytes are not one valid JSON document, otherwise
/// the document itself. Parsing depends on the bytes alone.
pub uninterp spec fn json_of(b: Seq<u8>) -> Option<JVal>;

#[verifier::external_type_specification]
#[verifier::external_body]
pub struct ExValue(serde_json::Value);

/// Relies on `serde_json::Value`'s derived `Clone`: a deep copy of the tree.
pub assume_specification[ <serde_json::Value as Clone>::clone ](
    v: &serde_json::Value,
) -> (r: serde_json::Value)
    ensures
        value_model(r) == value_model(*v),
;

/// Relies on `serde_json::from_slice::<serde_json::Value>`: parses one JSON
/// document from `b`, failing exactly when the bytes are not valid JSON.
#[verifier::external_body]
pub(crate) fn parse_value(b: &[u8]) -> (r: Option<serde_json::Value>)
    ensures
        r is Some <==> json_of(b@) is Some,
        r matches Some(v) ==> Some(value_model(v)) == json_of(b@),
{
    serde_json::from_slice(b).ok()
}

/// Relies on `serde_json::Value::get` with a string index: on an object it
/// returns the value stored under the key, or `None` when the key is absent;
/// on every other kind of value it returns `None`.
#[verifier::external_body]
pub(crate) fn value_get<'a>(v: &'a serde_json::Value, key: &str) -> (r: Option<
    &'a serde_json::Value,
>)
    ensures
        match value_model(*v) {
            JVal::Obj(fields) => {
                &&& r is Some <==> fields.contains_key(key@)
                &&& r matches Some(f) ==> fields.contains_key(key@) && value_model(*f)
                    == fields[key@]
            },
            _ => r is None,
        },
{
    v.get(key)
}

/// Relies on `serde_json::Value::as_str`: returns the characters of a JSON
/// string, and `None` on every other kind of value.
#[verifier::external_body]
pub(crate) fn value_as_str<'a>(v: &'a serde_json::Value) -> (r: Option<&'a str>)
    ensures
        match value_model(*v) {
            JVal::Str(s) => r matches Some(t) && t@ == s,
            _ => r is None,
        },
{
    v.as_str()
}

/// Relies on `serde_json::Value::as_u64`: returns the number exactly when the
/// value is a JSON number representable as a `u64`, and `None` otherwise.
#[verifier::external_body]
pub(crate) fn value_as_u64(v: &serde_json::Value) -> (r: Option<u64>)
    ensures
        match value_model(*v) {
            JVal::UInt(n) => r == Some(n),
            _ => r is None,
        },
{
    v.as_u64()
}

/// The field stored under `key` when `doc` is a JSON object holding that key.
pub open spec fn obj_field(doc: JVal, key: Seq<char>) -> Option<JVal> {
    match doc {
        JVal::Obj(fields) => if fields.contains_key(key) {
            Some(fields[key])
        } else {
            None
        },
        _ => None,
    }
}

} // verus!
