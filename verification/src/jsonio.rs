//! Trusted bridge to the JSON engine. Tool arguments arrive as one encoded
//! text blob; serde_json parses the blob into a tree, and the verified decode
//! in `args` walks that tree through the accessors below.
//!
//! A parsed value is opaque here, but parsing is deterministic in the text
//! and each accessor is deterministic in the value it reads, so their results
//! carry names: `json_parses` and `json_value_of` stand for the outcome of
//! the parse, and the `json_*_of` names for what the parsed tree holds at a
//! key. The wrappers promise nothing beyond those names.

use vstd::prelude::*;

verus! {

#[verifier::external_type_specification]
#[verifier::external_body]
pub struct ExValue(serde_json::Value);

/// Whether the text parses as JSON.
pub uninterp spec fn json_parses(raw: Seq<char>) -> bool;

/// The tree a successful parse of the text yields.
pub uninterp spec fn json_value_of(raw: Seq<char>) -> serde_json::Value;

/// What an object holds at a key, if the value is an object with that key.
pub uninterp spec fn json_field_of(v: serde_json::Value, key: Seq<char>) -> Option<
    serde_json::Value,
>;

/// The text of a JSON string value, if the value is one.
pub uninterp spec fn json_str_of(v: serde_json::Value) -> Option<Seq<char>>;

/// The value of a JSON number that is a non-negative integer, if so.
pub uninterp spec fn json_u64_of(v: serde_json::Value) -> Option<u64>;

/// The value of a JSON boolean, if the value is one.
pub uninterp spec fn json_bool_of(v: serde_json::Value) -> Option<bool>;

/// Whether the value is JSON null.
pub uninterp spec fn json_null_of(v: serde_json::Value) -> bool;

/// Whether the value is a JSON object.
pub uninterp spec fn json_object_of(v: serde_json::Value) -> bool;

/// Relies on serde_json::from_str::<Value>: whether text parses as JSON, and
/// the tree it yields, depend on the text alone. The diagnostic of a failed
/// parse is the engine's own and is not pinned here.
#[verifier::external_body]
pub fn parse_json(raw: &str) -> (r: Result<serde_json::Value, String>)
    ensures
        r is Ok <==> json_parses(raw@),
        r matches Ok(v) ==> v == json_value_of(raw@),
{
    match serde_json::from_str::<serde_json::Value>(raw) {
        Ok(v) => Ok(v),
        Err(e) => Err(e.to_string()),
    }
}

/// Relies on serde_json::Value::get: looks a key up in a JSON object; absent
/// keys and non-objects yield nothing.
#[verifier::external_body]
pub fn json_get<'a>(v: &'a serde_json::Value, key: &str) -> (r: Option<&'a serde_json::Value>)
    ensures
        r matches Some(x) ==> json_field_of(*v, key@) == Some(*x),
        r is None ==> json_field_of(*v, key@) is None,
{
    v.get(key)
}

/// Relies on serde_json::Value::as_str: the text of a JSON string, if the
/// value is one.
#[verifier::external_body]
pub fn json_as_str<'a>(v: &'a serde_json::Value) -> (r: Option<&'a str>)
    ensures
        r matches Some(s) ==> json_str_of(*v) == Some(s@),
        r is None ==> json_str_of(*v) is None,
{
    v.as_str()
}

/// Relies on serde_json::Value::as_u64: the value of a JSON number that is a
/// non-negative integer.
#[verifier::external_body]
pub fn json_as_u64(v: &serde_json::Value) -> (r: Option<u64>)
    ensures
        r == json_u64_of(*v),
{
    v.as_u64()
}

/// Relies on serde_json::Value::as_bool: the value of a JSON boolean.
#[verifier::external_body]
pub fn json_as_bool(v: &serde_json::Value) -> (r: Option<bool>)
    ensures
        r == json_bool_of(*v),
{
    v.as_bool()
}

/// Relies on serde_json::Value::is_null: whether the value is JSON null.
#[verifier::external_body]
pub fn json_is_null(v: &serde_json::Value) -> (r: bool)
    ensures
        r == json_null_of(*v),
{
    v.is_null()
}

/// Relies on serde_json::Value::is_object: whether the value is a JSON
/// object.
#[verifier::external_body]
pub fn json_is_object(v: &serde_json::Value) -> (r: bool)
    ensures
        r == json_object_of(*v),
{
    v.is_object()
}

} // verus!
