//! Trusted access to `serde_json` for reading a backend's identity response.
//!
//! Each wrapper holds exactly one `serde_json` call. The JSON values
//! themselves are opaque here; the verified logic in `discovery` works on the
//! plain fields these wrappers hand out.

use vstd::prelude::*;

verus! {

#[verifier::external_type_specification]
#[verifier::external_body]
pub struct ExJsonValue(serde_json::Value);

/// Relies on serde_json::from_str::<serde_json::Value>: parses a complete
/// JSON document, returning its tree; a body that is not valid JSON gives an
/// error, mapped to `None` here.
#[verifier::external_body]
pub(crate) fn json_parse(body: &str) -> Option<serde_json::Value> {
    match serde_json::from_str::<serde_json::Value>(body) {
        Ok(v) => Some(v),
        Err(_) => None,
    }
}

/// Relies on serde_json::Value::get: on an object, looks the key up and
/// returns the associated value; `None` on any other kind of value or when
/// the key is absent.
#[verifier::external_body]
pub(crate) fn json_get<'a>(v: &'a serde_json::Value, key: &str) -> Option<&'a serde_json::Value> {
    v.get(key)
}

/// Relies on serde_json::Value::as_str: returns the string a JSON string
/// value holds, `None` for every other kind of value.
#[verifier::external_body]
pub(crate) fn json_as_str(v: &serde_json::Value) -> Option<String> {
    match v.as_str() {
        Some(s) => Some(s.to_string()),
        None => None,
    }
}

/// Relies on serde_json::Value::as_u64: returns the number a JSON integer
/// value holds when it fits in a u64, `None` otherwise.
#[verifier::external_body]
pub(crate) fn json_as_u64(v: &serde_json::Value) -> Option<u64> {
    v.as_u64()
}

} // verus!
