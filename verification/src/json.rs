//! The trusted boundary around `serde_json`.
//!
//! Every response body is a JSON text.  Each accessor here re-reads the body
//! through `serde_json` and extracts one plain value at a fixed position; its
//! contract names the extracted value with an uninterpreted function of the
//! body text, so that the verified decoders can state exactly which field of
//! the document each struct field came from.  All of `serde_json`'s work is
//! deterministic in the text, so the names are sound.

use vstd::prelude::*;

verus! {

/// The message `serde_json` reports when `body` is not valid JSON; `None`
/// when `body` parses.
pub uninterp spec fn json_syntax_error(body: Seq<char>) -> Option<Seq<char>>;

/// The string value of top-level object field `key` of `body`, if `body`
/// parses to an object holding a string there.
pub uninterp spec fn json_str_field(body: Seq<char>, key: Seq<char>) -> Option<Seq<char>>;

/// The unsigned integer value of top-level object field `key` of `body`.
pub uninterp spec fn json_u64_field(body: Seq<char>, key: Seq<char>) -> Option<u64>;

/// The length of the array at top-level object field `key` of `body`.
pub uninterp spec fn json_arr_len(body: Seq<char>, key: Seq<char>) -> Option<usize>;

/// The string value of field `sub` of the `i`th element of the array at
/// top-level field `key` of `body`.
pub uninterp spec fn json_item_str(body: Seq<char>, key: Seq<char>, i: int, sub: Seq<char>) -> Option<
    Seq<char>,
>;

/// The unsigned integer value of field `sub` of the `i`th element of the
/// array at top-level field `key` of `body`.
pub uninterp spec fn json_item_u64(body: Seq<char>, key: Seq<char>, i: int, sub: Seq<char>) -> Option<
    u64,
>;

/// The signed integer value of field `sub` of the `i`th element of the array
/// at top-level field `key` of `body`.
pub uninterp spec fn json_item_i64(body: Seq<char>, key: Seq<char>, i: int, sub: Seq<char>) -> Option<
    i64,
>;

/// The boolean value of field `sub` of the `i`th element of the array at
/// top-level field `key` of `body`.
pub uninterp spec fn json_item_bool(body: Seq<char>, key: Seq<char>, i: int, sub: Seq<char>) -> Option<
    bool,
>;

/// The `i`th element of the array of plain strings at top-level field `key`
/// of `body`.
pub uninterp spec fn json_item_string(body: Seq<char>, key: Seq<char>, i: int) -> Option<Seq<char>>;

/// Relies on `serde_json::from_str::<Value>`: reports the parser's own error
/// message when the body is not valid JSON, and nothing when it is.
#[verifier::external_body]
pub fn syntax_error(text: &str) -> (r: Option<String>)
    ensures
        r is Some <==> json_syntax_error(text@) is Some,
        r matches Some(m) ==> json_syntax_error(text@) == Some(m@),
{
    match serde_json::from_str::<serde_json::Value>(text) {
        Ok(_) => None,
        Err(e) => Some(e.to_string()),
    }
}

/// Relies on `serde_json::from_str::<Value>`, `Value::get` and
/// `Value::as_str`: the string held by top-level field `key`.
#[verifier::external_body]
pub fn str_field(text: &str, key: &str) -> (r: Option<String>)
    ensures
        r is Some <==> json_str_field(text@, key@) is Some,
        r matches Some(s) ==> json_str_field(text@, key@) == Some(s@),
{
    let v: serde_json::Value = match serde_json::from_str(text) {
        Ok(v) => v,
        Err(_) => return None,
    };
    let f = match v.get(key) { Some(f) => f, None => return None };
    match f.as_str() {
        Some(s) => Some(s.to_string()),
        None => None,
    }
}

/// Relies on `serde_json::from_str::<Value>`, `Value::get` and
/// `Value::as_u64`: the unsigned integer held by top-level field `key`.
#[verifier::external_body]
pub fn u64_field(text: &str, key: &str) -> (r: Option<u64>)
    ensures
        r == json_u64_field(text@, key@),
{
    let v: serde_json::Value = match serde_json::from_str(text) {
        Ok(v) => v,
        Err(_) => return None,
    };
    match v.get(key) {
        Some(f) => f.as_u64(),
        None => None,
    }
}

/// Relies on `serde_json::from_str::<Value>`, `Value::get` and
/// `Value::as_array`: the length of the array held by top-level field `key`.
#[verifier::external_body]
pub fn arr_len(text: &str, key: &str) -> (r: Option<usize>)
    ensures
        r == json_arr_len(text@, key@),
{
    let v: serde_json::Value = match serde_json::from_str(text) {
        Ok(v) => v,
        Err(_) => return None,
    };
    let f = match v.get(key) { Some(f) => f, None => return None };
    match f.as_array() {
        Some(a) => Some(a.len()),
        None => None,
    }
}

/// Relies on `serde_json::from_str::<Value>`, `Value::get` and
/// `Value::as_str`: the string held by field `sub` of element `i` of the
/// array at top-level field `key`.
#[verifier::external_body]
pub fn item_str(text: &str, key: &str, i: usize, sub: &str) -> (r: Option<String>)
    ensures
        r is Some <==> json_item_str(text@, key@, i as int, sub@) is Some,
        r matches Some(s) ==> json_item_str(text@, key@, i as int, sub@) == Some(s@),
{
    let v: serde_json::Value = match serde_json::from_str(text) {
        Ok(v) => v,
        Err(_) => return None,
    };
    let arr = match v.get(key) { Some(a) => a, None => return None };
    let item = match arr.get(i) { Some(x) => x, None => return None };
    let f = match item.get(sub) { Some(f) => f, None => return None };
    match f.as_str() {
        Some(s) => Some(s.to_string()),
        None => None,
    }
}

/// Relies on `serde_json::from_str::<Value>`, `Value::get` and
/// `Value::as_u64`: the unsigned integer held by field `sub` of element `i`
/// of the array at top-level field `key`.
#[verifier::external_body]
pub fn item_u64(text: &str, key: &str, i: usize, sub: &str) -> (r: Option<u64>)
    ensures
        r == json_item_u64(text@, key@, i as int, sub@),
{
    let v: serde_json::Value = match serde_json::from_str(text) {
        Ok(v) => v,
        Err(_) => return None,
    };
    let arr = match v.get(key) { Some(a) => a, None => return None };
    let item = match arr.get(i) { Some(x) => x, None => return None };
    match item.get(sub) {
        Some(f) => f.as_u64(),
        None => None,
    }
}

/// Relies on `serde_json::from_str::<Value>`, `Value::get` and
/// `Value::as_i64`: the signed integer held by field `sub` of element `i` of
/// the array at top-level field `key`.
#[verifier::external_body]
pub fn item_i64(text: &str, key: &str, i: usize, sub: &str) -> (r: Option<i64>)
    ensures
        r == json_item_i64(text@, key@, i as int, sub@),
{
    let v: serde_json::Value = match serde_json::from_str(text) {
        Ok(v) => v,
        Err(_) => return None,
    };
    let arr = match v.get(key) { Some(a) => a, None => return None };
    let item = match arr.get(i) { Some(x) => x, None => return None };
    match item.get(sub) {
        Some(f) => f.as_i64(),
        None => None,
    }
}

/// Relies on `serde_json::from_str::<Value>`, `Value::get` and
/// `Value::as_bool`: the boolean held by field `sub` of element `i` of the
/// array at top-level field `key`.
#[verifier::external_body]
pub fn item_bool(text: &str, key: &str, i: usize, sub: &str) -> (r: Option<bool>)
    ensures
        r == json_item_bool(text@, key@, i as int, sub@),
{
    let v: serde_json::Value = match serde_json::from_str(text) {
        Ok(v) => v,
        Err(_) => return None,
    };
    let arr = match v.get(key) { Some(a) => a, None => return None };
    let item = match arr.get(i) { Some(x) => x, None => return None };
    match item.get(sub) {
        Some(f) => f.as_bool(),
        None => None,
    }
}

/// Relies on `serde_json::from_str::<Value>`, `Value::get` and
/// `Value::as_str`: element `i` of the array of plain strings at top-level
/// field `key`.
#[verifier::external_body]
pub fn item_string(text: &str, key: &str, i: usize) -> (r: Option<String>)
    ensures
        r is Some <==> json_item_string(text@, key@, i as int) is Some,
        r matches Some(s) ==> json_item_string(text@, key@, i as int) == Some(s@),
{
    let v: serde_json::Value = match serde_json::from_str(text) {
        Ok(v) => v,
        Err(_) => return None,
    };
    let arr = match v.get(key) { Some(a) => a, None => return None };
    let item = match arr.get(i) { Some(x) => x, None => return None };
    match item.as_str() {
        Some(s) => Some(s.to_string()),
        None => None,
    }
}

} // verus!
