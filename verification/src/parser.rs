//! Payload parsing: extracts the one numeric field of interest,
//! `battery_pct`, from a structured telemetry payload. Every structural
//! mismatch — malformed payload, missing field, non-integer field — yields
//! "absent", never an error: the bridge tolerates arbitrary and evolving
//! payload shapes.

use vstd::prelude::*;

verus! {

/// The reading that a telemetry payload yields: the value of its
/// `battery_pct` field when the payload decodes as a structured object
/// carrying that field as an integer, and `None` otherwise. The outcome is a
/// pure function of the payload bytes; its exact value is fixed by the JSON
/// grammar and is not restated here.
pub uninterp spec fn battery_pct_of(payload: Seq<u8>) -> Option<i64>;

/// Relies on serde_json::from_slice::<Value>, Value::get and Value::as_i64:
/// deserializing a byte slice, looking a field up in the resulting value and
/// reading it as an i64 are deterministic in the payload bytes, and none of
/// them panics.
#[verifier::external_body]
fn extract_battery_pct(payload: &[u8]) -> (r: Option<i64>)
    ensures
        r == battery_pct_of(payload@),
{
    match serde_json::from_slice::<serde_json::Value>(payload) {
        Ok(v) => v.get("battery_pct").and_then(|x| x.as_i64()),
        Err(_) => None,
    }
}

/// Extracts the `battery_pct` reading from a telemetry payload, or `None`
/// for any payload that does not carry one.
pub fn parse_battery_pct(payload: &[u8]) -> (r: Option<i64>)
    ensures
        r == battery_pct_of(payload@),
{
    extract_battery_pct(payload)
}

} // verus!
