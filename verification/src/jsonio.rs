//! Trusted boundary to the generic JSON reader.
//!
//! Structured parameter text reaches the engine as JSON.  Reading it is
//! delegated to `serde_json`; each wrapper here goes from plain text to
//! plain values, and what it returns is named as a function of the text
//! alone, so the verified parsing logic carries an exact contract.

use vstd::prelude::*;

verus! {

/// Whether a text parses as a JSON object; what `serde_json::from_str`
/// accepts with an object at the top level, as a function of the text.
pub uninterp spec fn params_text_wellformed(s: Seq<char>) -> bool;

/// The unsigned-integer reading of one field of a JSON text: `None` when
/// the text does not parse to an object holding the key, `Some(None)`
/// when the field is present but is not an unsigned 64-bit integer,
/// `Some(Some(v))` otherwise.  A function of the text and the key alone.
pub uninterp spec fn json_field_u64(s: Seq<char>, key: Seq<char>) -> Option<Option<u64>>;

/// The numeric reading of one field of a JSON text as 64-bit float bits:
/// `None` when the text does not parse to an object holding the key,
/// `Some(None)` when the field is present but is not a number,
/// `Some(Some(bits))` otherwise.  A function of the text and the key
/// alone.
pub uninterp spec fn json_field_bits(s: Seq<char>, key: Seq<char>) -> Option<Option<u64>>;

/// Relies on `serde_json::from_str::<Value>` and `Value::is_object`:
/// `Ok` exactly when the text is well-formed JSON with an object at the
/// top level, `Err` with the reason otherwise.
#[verifier::external_body]
pub(crate) fn check_params_text(s: &str) -> (r: Result<(), String>)
    ensures
        r is Ok <==> params_text_wellformed(s@),
{
    match serde_json::from_str::<serde_json::Value>(s) {
        Ok(v) if v.is_object() => Ok(()),
        Ok(_) => Err("parameters must be a JSON object".to_string()),
        Err(e) => Err(e.to_string()),
    }
}

/// Relies on `serde_json::from_str::<Value>`, `Value::get` and
/// `Value::as_u64`: the unsigned-integer reading of the named field.
#[verifier::external_body]
pub(crate) fn read_field_u64(s: &str, key: &str) -> (r: Option<Option<u64>>)
    ensures
        r == json_field_u64(s@, key@),
{
    serde_json::from_str::<serde_json::Value>(s).ok().and_then(|v| v.get(key).map(|f| f.as_u64()))
}

/// Relies on `serde_json::from_str::<Value>`, `Value::get` and
/// `Value::as_f64`: the numeric reading of the named field, handed back
/// as the IEEE 754 bit pattern of its 64-bit floating-point value.
#[verifier::external_body]
pub(crate) fn read_field_bits(s: &str, key: &str) -> (r: Option<Option<u64>>)
    ensures
        r == json_field_bits(s@, key@),
{
    serde_json::from_str::<serde_json::Value>(s)
        .ok()
        .and_then(|v| v.get(key).map(|f| f.as_f64().map(|x| x.to_bits())))
}

} // verus!
