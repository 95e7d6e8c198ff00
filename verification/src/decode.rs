//! The failure side of the dual-shape response protocol.
//!
//! Every endpoint call reads the response body as text and first tries to
//! decode it as the endpoint's success shape.  When that fails, the body is
//! checked against the shared error envelope `{error_code, error_message}`;
//! a matching envelope becomes the formatted failure `"ERROR <code>:
//! <message>"`, a body that is not even valid JSON surfaces the JSON parser's
//! own message, and anything else is reported as a shape mismatch.

use vstd::prelude::*;
use vstd::string::*;
use crate::fragment::spec_decimal;
use crate::fragment::decimal_string_u64;
use crate::json;

verus! {

/// The view of an optional owned string.
pub open spec fn opt_str_view(o: Option<String>) -> Option<Seq<char>> {
    match o {
        Some(s) => Some(s@),
        None => None,
    }
}

/// An optional `usize` widened back to the decoded `u64`.
pub open spec fn opt_usize_u64(o: Option<usize>) -> Option<u64> {
    match o {
        Some(v) => Some(v as u64),
        None => None,
    }
}

/// An optional `isize` widened back to the decoded `i64`.
pub open spec fn opt_isize_i64(o: Option<isize>) -> Option<i64> {
    match o {
        Some(v) => Some(v as i64),
        None => None,
    }
}

/// Top-level field `key` holds an unsigned integer that fits a `usize`.
pub open spec fn usize_field_ok(body: Seq<char>, key: Seq<char>) -> bool {
    match json::json_u64_field(body, key) {
        Some(v) => v <= usize::MAX as u64,
        None => false,
    }
}

/// Field `sub` of element `i` of the array at `key` holds an unsigned
/// integer that fits a `usize`.
pub open spec fn usize_item_ok(body: Seq<char>, key: Seq<char>, i: int, sub: Seq<char>) -> bool {
    match json::json_item_u64(body, key, i, sub) {
        Some(v) => v <= usize::MAX as u64,
        None => false,
    }
}

/// Field `sub` of element `i` of the array at `key` holds a signed integer
/// that fits an `isize`.
pub open spec fn isize_item_ok(body: Seq<char>, key: Seq<char>, i: int, sub: Seq<char>) -> bool {
    match json::json_item_i64(body, key, i, sub) {
        Some(v) => isize::MIN as i64 <= v <= isize::MAX as i64,
        None => false,
    }
}

/// An optional signed item field either is absent or fits an `isize`.
pub open spec fn opt_isize_item_ok(body: Seq<char>, key: Seq<char>, i: int, sub: Seq<char>) -> bool {
    match json::json_item_i64(body, key, i, sub) {
        Some(v) => isize::MIN as i64 <= v <= isize::MAX as i64,
        None => true,
    }
}

/// An optional unsigned top-level field either is absent or fits a `usize`.
pub open spec fn opt_usize_field_ok(body: Seq<char>, key: Seq<char>) -> bool {
    match json::json_u64_field(body, key) {
        Some(v) => v <= usize::MAX as u64,
        None => true,
    }
}

/// The body carries the shared error envelope: an `error_code` integer and an
/// `error_message` string.
pub open spec fn envelope_ok(body: Seq<char>) -> bool {
    &&& json::json_u64_field(body, "error_code"@) is Some
    &&& json::json_str_field(body, "error_message"@) is Some
}

/// The formatted remote failure, `"ERROR <code>: <message>"`.
pub open spec fn error_line(code: u64, message: Seq<char>) -> Seq<char> {
    "ERROR "@ + spec_decimal(code as nat) + ": "@ + message
}

/// The message reported when a body is valid JSON but matches neither the
/// success shape nor the error envelope.
pub open spec fn shape_mismatch_msg() -> Seq<char> {
    "response body matches neither the expected shape nor the error envelope"@
}

/// What a failed decode reports: the formatted error envelope when the body
/// carries one, otherwise the JSON parser's message when the body is not
/// JSON, otherwise the shape-mismatch message.
pub open spec fn decode_failure(body: Seq<char>) -> Seq<char> {
    if envelope_ok(body) {
        error_line(
            json::json_u64_field(body, "error_code"@)->Some_0,
            json::json_str_field(body, "error_message"@)->Some_0,
        )
    } else {
        match json::json_syntax_error(body) {
            Some(m) => m,
            None => shape_mismatch_msg(),
        }
    }
}

/// Builds the failure message for a body whose success-shape decode failed.
pub fn failure_from_body(text: &str) -> (r: String)
    ensures
        r@ == decode_failure(text@),
{
    let code = json::u64_field(text, "error_code");
    let message = json::str_field(text, "error_message");
    match (code, message) {
        (Some(c), Some(m)) => {
            let mut s = String::from_str("ERROR ");
            let digits = decimal_string_u64(c);
            s.append(digits.as_str());
            s.append(": ");
            s.append(m.as_str());
            proof {
                assert(s@ =~= error_line(c, m@));
            }
            s
        },
        _ => {
            match json::syntax_error(text) {
                Some(m) => m,
                None => String::from_str(
                    "response body matches neither the expected shape nor the error envelope",
                ),
            }
        },
    }
}

/// Narrows a decoded unsigned integer to `usize`, rejecting values the
/// platform cannot hold.
pub fn u64_to_usize(v: u64) -> (r: Option<usize>)
    ensures
        r matches Some(x) ==> v <= usize::MAX as u64 && x as u64 == v,
        r is None <==> v > usize::MAX as u64,
{
    if v <= usize::MAX as u64 {
        Some(v as usize)
    } else {
        None
    }
}

/// Narrows a decoded signed integer to `isize`, rejecting values the
/// platform cannot hold.
pub fn i64_to_isize(v: i64) -> (r: Option<isize>)
    ensures
        r matches Some(x) ==> isize::MIN as i64 <= v <= isize::MAX as i64 && x as i64 == v,
        r is None <==> !(isize::MIN as i64 <= v <= isize::MAX as i64),
{
    if isize::MIN as i64 <= v && v <= isize::MAX as i64 {
        Some(v as isize)
    } else {
        None
    }
}

} // verus!
