//! The unit-operation dispatcher: one guard shared by the five operations,
//! the plan each control operation hands to the remote client, the shaping
//! of success responses, and the best-effort timestamp of the two-stage
//! status lookup.

use crate::errors::{spec_translate, RemoteError, ServiceError};
use crate::models::{ServiceResponse, ServiceStatusResponse};
use crate::state::AppState;
use crate::text::{seq_contains_str, vec_contains_str};
use vstd::prelude::*;

verus! {

/// The four control operations; the status lookup is separate, read-only.
#[derive(Debug, Clone, Copy, PartialEq, Eq, Structural)]
pub enum UnitOp {
    Start,
    Stop,
    Restart,
    Reload,
}

impl UnitOp {
    /// The optimistic progress word a successful operation reports: the
    /// remote job was accepted, never a confirmed end state.
    pub open spec fn spec_status_word(self) -> Seq<char> {
        match self {
            UnitOp::Start => "starting"@,
            UnitOp::Stop => "stopping"@,
            UnitOp::Restart => "restarting"@,
            UnitOp::Reload => "reloading"@,
        }
    }

    pub fn status_word(&self) -> (r: String)
        ensures
            r@ == self.spec_status_word(),
    {
        match self {
            UnitOp::Start => "starting".to_owned(),
            UnitOp::Stop => "stopping".to_owned(),
            UnitOp::Restart => "restarting".to_owned(),
            UnitOp::Reload => "reloading".to_owned(),
        }
    }
}

/// A unit name is allowed when it is non-empty and, where an allowlist is
/// configured, a member of it.
pub open spec fn spec_unit_allowed(state: AppState, service: Seq<char>) -> bool {
    service.len() > 0 && match state.spec_allowlist() {
        None => true,
        Some(al) => seq_contains_str(al@, service),
    }
}

/// An empty name, and any name outside a configured allowlist, is not
/// allowed — whether or not such a unit exists.
pub proof fn lemma_unit_guard(state: AppState, service: Seq<char>)
    requires
        service.len() == 0 || match state.spec_allowlist() {
            Some(al) => !seq_contains_str(al@, service),
            None => false,
        },
    ensures
        !spec_unit_allowed(state, service),
{
}

/// The guard shared by all five operations: an empty name, and a name
/// outside a configured allowlist, is refused with `InvalidUnit` — the
/// same answer in either case, leaking nothing about which names exist.
pub fn ensure_service_allowed(state: &AppState, service: &str) -> (r: Result<(), ServiceError>)
    ensures
        r is Ok <==> spec_unit_allowed(*state, service@),
        r is Err ==> r == Err::<(), ServiceError>(ServiceError::InvalidUnit),
{
    if service.is_empty() {
        return Err(ServiceError::InvalidUnit);
    }
    match state.allowlist() {
        None => Ok(()),
        Some(a) => if vec_contains_str(a, service) {
            Ok(())
        } else {
            Err(ServiceError::InvalidUnit)
        },
    }
}

/// A remote call the dispatcher has decided to make: the vetted unit name
/// and the job mode, always `replace`, superseding any queued conflicting
/// job for the same unit.
#[derive(Debug)]
pub struct RemoteCall {
    pub unit: String,
    pub mode: String,
}

/// Plans a control operation. A plan comes back exactly for allowed names,
/// so the remote client is never reached for an empty or forbidden one;
/// every refusal is `InvalidUnit`.
pub fn plan_unit_op(state: &AppState, service: &str) -> (r: Result<RemoteCall, ServiceError>)
    ensures
        r is Ok <==> spec_unit_allowed(*state, service@),
        match r {
            Ok(c) => c.unit@ == service@ && c.mode@ == "replace"@,
            Err(e) => e == ServiceError::InvalidUnit,
        },
{
    match ensure_service_allowed(state, service) {
        Ok(_) => Ok(RemoteCall { unit: service.to_owned(), mode: "replace".to_owned() }),
        Err(e) => Err(e),
    }
}

/// Completes a control operation from the remote call's outcome: success
/// becomes the optimistic `{service, status}` body, failure is translated
/// into exactly one API error.
pub fn complete_unit_op(service: String, op: &UnitOp, outcome: Result<(), RemoteError>) -> (r:
    Result<ServiceResponse, ServiceError>)
    ensures
        match r {
            Ok(resp) => outcome is Ok && resp.service@ == service@ && resp.status@
                == op.spec_status_word(),
            Err(e) => outcome is Err && e == spec_translate(outcome.unwrap_err()),
        },
{
    match outcome {
        Ok(_) => Ok(ServiceResponse { service, status: op.status_word() }),
        Err(f) => Err(ServiceError::from(f)),
    }
}

/// Whether a microsecond count lies in the calendar's representable range.
pub uninterp spec fn micros_representable(t: int) -> bool;

/// Relies on `chrono::DateTime::from_timestamp_micros`: whether a
/// microsecond count is representable depends on the value alone, and the
/// epoch itself is representable.
#[verifier::external_body]
fn timestamp_micros_ok(t: i64) -> (r: bool)
    ensures
        r == micros_representable(t as int),
        t == 0 ==> r,
{
    chrono::DateTime::<chrono::Utc>::from_timestamp_micros(t).is_some()
}

/// The two's-complement reading of a raw timestamp: the remote protocol
/// hands it over unsigned, the calendar takes it signed, and a value past
/// the signed maximum wraps around rather than fails.
pub open spec fn spec_wrap_i64(t: u64) -> int {
    if t <= 0x7fff_ffff_ffff_ffff {
        t as int
    } else {
        t as int - 0x1_0000_0000_0000_0000
    }
}

pub fn wrap_to_i64(t: u64) -> (r: i64)
    ensures
        r as int == spec_wrap_i64(t),
{
    if t <= 0x7fff_ffff_ffff_ffff {
        t as i64
    } else {
        let d: u64 = t - 0x8000_0000_0000_0000;
        i64::MIN + (d as i64)
    }
}

/// When the status response carries `since`: exactly when the timestamp
/// was read at all and its signed reading is calendar-representable.
pub open spec fn spec_since(ts: Option<u64>) -> Option<int> {
    match ts {
        Some(t) => if micros_representable(spec_wrap_i64(t)) {
            Some(spec_wrap_i64(t))
        } else {
            None
        },
        None => None,
    }
}

/// Assembles a successful status response. The unit's name and its two
/// state words pass through unchanged; `since` is best-effort: a failed
/// read (`ts == None`) or an unrepresentable value downgrades to omission,
/// never to an error.
pub fn build_status_response(
    service: String,
    active_state: String,
    sub_state: String,
    ts: Option<u64>,
) -> (r: ServiceStatusResponse)
    ensures
        r.service@ == service@,
        r.state@ == active_state@,
        r.sub_state@ == sub_state@,
        match r.since {
            Some(v) => spec_since(ts) == Some(v as int),
            None => spec_since(ts) is None,
        },
{
    let since = match ts {
        Some(t) => {
            let m = wrap_to_i64(t);
            if timestamp_micros_ok(m) {
                Some(m)
            } else {
                None
            }
        },
        None => None,
    };
    ServiceStatusResponse { service, state: active_state, sub_state, since }
}

} // verus!
