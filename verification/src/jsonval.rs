//! The trusted boundary to `serde_json`: provider responses arrive as raw
//! JSON text and are decoded through `serde_json::Value`, which Verus treats
//! as an opaque type. Every fact the adapters state about a decoded record
//! is stated over the plain values these wrappers hand out.

use vstd::prelude::*;

use crate::errors::Error;

verus! {

#[verifier::external_type_specification]
#[verifier::external_body]
pub struct ExJsonValue(serde_json::Value);

/// Relies on `serde_json::from_str::<Value>`: decodes a JSON document, or
/// reports why it is not one.
#[verifier::external_body]
pub fn json_parse(s: &str) -> (r: Result<serde_json::Value, Error>)
    ensures
        r matches Err(e) ==> e is JsonError,
{
    match serde_json::from_str::<serde_json::Value>(s) {
        Ok(v) => Ok(v),
        Err(e) => Err(Error::JsonError(e.to_string())),
    }
}

/// Relies on `serde_json::Value::get`: the value of a field of a JSON
/// object, `None` for a missing field or a non-object.
#[verifier::external_body]
pub fn json_get<'a>(v: &'a serde_json::Value, key: &str) -> (r: Option<&'a serde_json::Value>) {
    v.get(key)
}

/// Relies on `serde_json::Value::as_str`: the content of a JSON string,
/// `None` for any other kind of value.
#[verifier::external_body]
pub fn json_as_string(v: &serde_json::Value) -> (r: Option<String>) {
    match v.as_str() {
        Some(s) => Some(s.to_owned()),
        None => None,
    }
}

/// Relies on `serde_json::Value::as_u64`: the value of a JSON number that
/// is a non-negative integer, `None` for any other kind of value.
#[verifier::external_body]
pub fn json_as_u64(v: &serde_json::Value) -> (r: Option<u64>) {
    v.as_u64()
}

/// Relies on `serde_json::Value::as_bool`: the value of a JSON boolean,
/// `None` for any other kind of value.
#[verifier::external_body]
pub fn json_as_bool(v: &serde_json::Value) -> (r: Option<bool>) {
    v.as_bool()
}

/// Relies on `serde_json::Value::as_array`: the elements of a JSON array,
/// `None` for any other kind of value.
#[verifier::external_body]
pub fn json_as_array<'a>(v: &'a serde_json::Value) -> (r: Option<&'a Vec<serde_json::Value>>) {
    v.as_array()
}

/// The string content of a field of a JSON object; a missing or
/// differently-typed field is a decode error, as it is for a derived
/// deserializer.
pub fn get_string_field(v: &serde_json::Value, key: &str) -> (r: Result<String, Error>)
    ensures
        r matches Err(e) ==> e is JsonError,
{
    match json_get(v, key) {
        Some(f) => match json_as_string(f) {
            Some(s) => Ok(s),
            None => Err(Error::JsonError("field is not a string".to_owned())),
        },
        None => Err(Error::JsonError("missing field".to_owned())),
    }
}

/// The numeric value of a field of a JSON object; a missing field or one
/// that is not a non-negative integer is a decode error.
pub fn get_u64_field(v: &serde_json::Value, key: &str) -> (r: Result<u64, Error>)
    ensures
        r matches Err(e) ==> e is JsonError,
{
    match json_get(v, key) {
        Some(f) => match json_as_u64(f) {
            Some(n) => Ok(n),
            None => Err(Error::JsonError("field is not an integer".to_owned())),
        },
        None => Err(Error::JsonError("missing field".to_owned())),
    }
}

/// The boolean value of a field of a JSON object; a missing or
/// differently-typed field is a decode error.
pub fn get_bool_field(v: &serde_json::Value, key: &str) -> (r: Result<bool, Error>)
    ensures
        r matches Err(e) ==> e is JsonError,
{
    match json_get(v, key) {
        Some(f) => match json_as_bool(f) {
            Some(b) => Ok(b),
            None => Err(Error::JsonError("field is not a boolean".to_owned())),
        },
        None => Err(Error::JsonError("missing field".to_owned())),
    }
}

/// The elements of an array-valued field of a JSON object; a missing or
/// differently-typed field is a decode error.
pub fn get_array_field<'a>(v: &'a serde_json::Value, key: &str) -> (r: Result<
    &'a Vec<serde_json::Value>,
    Error,
>)
    ensures
        r matches Err(e) ==> e is JsonError,
{
    match json_get(v, key) {
        Some(f) => match json_as_array(f) {
            Some(a) => Ok(a),
            None => Err(Error::JsonError("field is not an array".to_owned())),
        },
        None => Err(Error::JsonError("missing field".to_owned())),
    }
}

} // verus!
