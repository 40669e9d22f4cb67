//! Response shapes of the HTTP surface. The surrounding application turns
//! these plain values into JSON; nothing here is ever parsed back.

use vstd::prelude::*;

verus! {

/// Body of a successful unit operation: the unit's name and the optimistic
/// progress word (`starting`, `stopping`, `restarting` or `reloading`).
/// Reflects job acceptance only, never a confirmed end state.
#[derive(Debug)]
pub struct ServiceResponse {
    pub service: String,
    pub status: String,
}

/// Body of a successful status lookup, derived live on every request.
/// `since` is the unit's last state change as microseconds since the Unix
/// epoch; it is omitted (`None`) when the timestamp could not be read or
/// does not fit the calendar range.
#[derive(Debug)]
pub struct ServiceStatusResponse {
    pub service: String,
    pub state: String,
    pub sub_state: String,
    pub since: Option<i64>,
}

/// Body of every failure response: one short fixed message.
#[derive(Debug)]
pub struct ErrorResponse {
    pub error: String,
}

/// Body of the liveness endpoint.
#[derive(Debug)]
pub struct HealthResponse {
    pub status: String,
}

/// The liveness answer: always `OK`, whatever the gateway's configuration.
pub fn health_check() -> (r: HealthResponse)
    ensures
        r.status@ == "OK"@,
{
    HealthResponse { status: "OK".to_owned() }
}

} // verus!
