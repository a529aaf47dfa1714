//! The JSON reader this library builds on, and what is taken on trust about it.
//!
//! A [`serde_json::Value`] is opaque to the verifier. Each operation on it that
//! the schema decoder uses gets a name, at the level of specifications, for
//! what it returns, and the decoder's contracts are stated over those names.
//! Nothing is assumed of a name but that it is a function of its arguments.

use crate::model::views;
use serde_json::Value;
use vstd::prelude::*;

verus! {

/// `serde_json::Value`, a JSON value, held without looking inside.
#[verifier::external_type_specification]
#[verifier::external_body]
pub struct ExValue(serde_json::Value);

/// `serde_json::Error`, held without looking inside.
#[verifier::external_type_specification]
#[verifier::external_body]
pub struct ExJsonError(serde_json::Error);

/// The JSON value that `serde_json` reads from the bytes `data`, or `None`
/// where it reads none: where they are not one JSON text, or one that it
/// does not take.
pub uninterp spec fn json_parse(data: Seq<u8>) -> Option<Value>;

/// The characters of `v` where it is a JSON string.
pub uninterp spec fn json_text(v: Value) -> Option<Seq<char>>;

/// The elements of `v`, in order, where it is a JSON array.
pub uninterp spec fn json_items(v: Value) -> Option<Seq<Value>>;

/// The member of `v` under `key` where `v` is a JSON object that has one.
pub uninterp spec fn json_member(v: Value, key: Seq<char>) -> Option<Value>;

/// The number `v` where it is a JSON integer that fits 64 signed bits.
pub uninterp spec fn json_integer(v: Value) -> Option<i64>;

/// The member names of `v`, in the order in which the object holds them, where
/// `v` is a JSON object.
pub uninterp spec fn json_keys(v: Value) -> Option<Seq<Seq<char>>>;

/// Calls `serde_json::from_slice` at type `Value`. Trusted: the outcome is a
/// function of the bytes alone, named by [`json_parse`]; an error stands for
/// `None`.
#[verifier::external_body]
pub(crate) fn parse(data: &[u8]) -> (r: Result<Value, serde_json::Error>)
    ensures
        match r {
            Ok(v) => json_parse(data@) == Some(v),
            Err(_) => json_parse(data@) is None,
        },
{
    serde_json::from_slice::<Value>(data)
}

/// Calls `Value::get` with a string key. Trusted: it yields the member under
/// `key` of an object and nothing for any other value, as [`json_member`] names it.
#[verifier::external_body]
pub(crate) fn member<'a>(v: &'a Value, key: &str) -> (r: Option<&'a Value>)
    ensures
        match r {
            Some(m) => json_member(*v, key@) == Some(*m),
            None => json_member(*v, key@) is None,
        },
{
    v.get(key)
}

/// Calls `Value::as_object` and `Map::keys`. Trusted: an object yields its
/// member names in the order in which it holds them, any other value nothing,
/// as [`json_keys`] names it.
#[verifier::external_body]
pub(crate) fn keys(v: &Value) -> (r: Option<Vec<String>>)
    ensures
        match r {
            Some(names) => json_keys(*v) == Some(views(names@)),
            None => json_keys(*v) is None,
        },
{
    match v.as_object() {
        Some(object) => Some(object.keys().cloned().collect()),
        None => None,
    }
}

/// `Value::as_str` yields the text of a JSON string and nothing for any other
/// value, as [`json_text`] names it.
pub assume_specification<'a>[ Value::as_str ](v: &'a Value) -> (r: Option<&'a str>)
    ensures
        match r {
            Some(s) => json_text(*v) == Some(s@),
            None => json_text(*v) is None,
        },
;

/// `Value::as_array` yields the elements of a JSON array and nothing for any
/// other value, as [`json_items`] names it.
pub assume_specification<'a>[ Value::as_array ](v: &'a Value) -> (r: Option<&'a Vec<Value>>)
    ensures
        match r {
            Some(a) => json_items(*v) == Some(a@),
            None => json_items(*v) is None,
        },
;

/// `Value::as_i64` yields a JSON integer that fits 64 signed bits and nothing
/// for any other value, as [`json_integer`] names it.
pub assume_specification[ Value::as_i64 ](v: &Value) -> (r: Option<i64>)
    ensures
        r == json_integer(*v),
;

} // verus!
