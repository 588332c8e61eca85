//! Fixture signals and payloads for telemetry tests.

use vstd::prelude::*;

verus! {

/// The signal name tests record and look for.
pub fn signal() -> (s: &'static str)
    ensures
        s@ == "signal"@,
{
    "signal"
}

/// Relies on `serde_json::Value::Object` over `serde_json::Map::new`: an
/// empty JSON object, the smallest structured payload.
#[verifier::external_body]
pub fn data() -> serde_json::Value {
    serde_json::Value::Object(serde_json::Map::new())
}

} // verus!
