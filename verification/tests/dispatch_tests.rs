use servitor::dispatch::{
    build_status_response, complete_unit_op, ensure_service_allowed, plan_unit_op, UnitOp,
};
use servitor::errors::{RemoteError, ServiceError};
use servitor::state::AppState;

fn state_with_allowlist(names: &[&str]) -> AppState {
    AppState::new(None, Some(names.iter().map(|s| s.to_string()).collect()))
}

fn open_state() -> AppState {
    AppState::new(None, None)
}

#[test]
fn allowlisted_name_passes_the_guard() {
    let st = state_with_allowlist(&["nginx"]);
    assert!(ensure_service_allowed(&st, "nginx").is_ok());
}

#[test]
fn name_outside_allowlist_is_invalid_unit() {
    let st = state_with_allowlist(&["nginx"]);
    assert_eq!(ensure_service_allowed(&st, "sshd"), Err(ServiceError::InvalidUnit));
    assert_eq!(ensure_service_allowed(&st, "postgres"), Err(ServiceError::InvalidUnit));
}

#[test]
fn empty_name_is_invalid_unit_even_without_allowlist() {
    let st = open_state();
    assert_eq!(ensure_service_allowed(&st, ""), Err(ServiceError::InvalidUnit));
    let st2 = state_with_allowlist(&["nginx"]);
    assert_eq!(ensure_service_allowed(&st2, ""), Err(ServiceError::InvalidUnit));
}

#[test]
fn without_allowlist_any_nonempty_name_passes() {
    let st = open_state();
    assert!(ensure_service_allowed(&st, "whatever").is_ok());
}

#[test]
fn empty_allowlist_refuses_everything() {
    let st = state_with_allowlist(&[]);
    assert_eq!(ensure_service_allowed(&st, "nginx"), Err(ServiceError::InvalidUnit));
}

#[test]
fn plan_carries_name_and_replace_mode() {
    let st = state_with_allowlist(&["nginx"]);
    let plan = plan_unit_op(&st, "nginx").unwrap();
    assert_eq!(plan.unit, "nginx");
    assert_eq!(plan.mode, "replace");
}

#[test]
fn plan_refuses_forbidden_name_with_invalid_unit() {
    let st = state_with_allowlist(&["nginx"]);
    assert!(matches!(plan_unit_op(&st, "sshd"), Err(ServiceError::InvalidUnit)));
}

#[test]
fn successful_start_reports_starting() {
    let r = complete_unit_op("nginx".to_string(), &UnitOp::Start, Ok(())).unwrap();
    assert_eq!(r.service, "nginx");
    assert_eq!(r.status, "starting");
}

#[test]
fn each_operation_has_its_progress_word() {
    let cases = [
        (UnitOp::Start, "starting"),
        (UnitOp::Stop, "stopping"),
        (UnitOp::Restart, "restarting"),
        (UnitOp::Reload, "reloading"),
    ];
    for (op, word) in cases {
        let r = complete_unit_op("u.service".to_string(), &op, Ok(())).unwrap();
        assert_eq!(r.status, word);
        assert_eq!(r.service, "u.service");
    }
}

#[test]
fn failed_operation_is_translated() {
    let fault = RemoteError::Method {
        name: "org.freedesktop.systemd1.NoSuchUnit".to_string(),
        message: Some("Unit ghost.service not loaded.".to_string()),
    };
    let r = complete_unit_op("ghost".to_string(), &UnitOp::Stop, Err(fault));
    assert_eq!(r.unwrap_err(), ServiceError::InvalidUnit);
}

#[test]
fn status_keeps_states_and_timestamp() {
    let r = build_status_response(
        "nginx".to_string(),
        "active".to_string(),
        "running".to_string(),
        Some(1_700_000_000_000_000),
    );
    assert_eq!(r.service, "nginx");
    assert_eq!(r.state, "active");
    assert_eq!(r.sub_state, "running");
    assert_eq!(r.since, Some(1_700_000_000_000_000));
}

#[test]
fn status_omits_since_when_read_failed() {
    let r = build_status_response(
        "nginx".to_string(),
        "inactive".to_string(),
        "dead".to_string(),
        None,
    );
    assert_eq!(r.since, None);
    assert_eq!(r.state, "inactive");
    assert_eq!(r.sub_state, "dead");
}

#[test]
fn status_omits_since_when_out_of_calendar_range() {
    let r = build_status_response(
        "nginx".to_string(),
        "active".to_string(),
        "running".to_string(),
        Some(i64::MAX as u64),
    );
    assert_eq!(r.since, None);
}

#[test]
fn status_since_wraps_like_a_signed_read() {
    // The raw counter is unsigned; u64::MAX reads as -1 microsecond, which
    // is one microsecond before the epoch and perfectly representable.
    let r = build_status_response(
        "nginx".to_string(),
        "active".to_string(),
        "running".to_string(),
        Some(u64::MAX),
    );
    assert_eq!(r.since, Some(-1));
}

#[test]
fn status_epoch_is_representable() {
    let r = build_status_response(
        "nginx".to_string(),
        "active".to_string(),
        "running".to_string(),
        Some(0),
    );
    assert_eq!(r.since, Some(0));
}
