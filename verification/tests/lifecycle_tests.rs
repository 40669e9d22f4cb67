use servitor::lifecycle::{Lifecycle, LifecycleEvent, LifecyclePhase};
use servitor::models::health_check;

#[test]
fn health_always_reports_ok() {
    assert_eq!(health_check().status, "OK");
}

#[test]
fn startup_failure_stops_without_serving() {
    let mut lc = Lifecycle::starting();
    assert_eq!(lc.phase, LifecyclePhase::Starting);
    assert!(!lc.accepts_new());
    lc.step(LifecycleEvent::StartupFailed);
    assert_eq!(lc.phase, LifecyclePhase::Stopped);
    assert!(!lc.accepts_new());
}

#[test]
fn serving_accepts_and_completes_work() {
    let mut lc = Lifecycle::starting();
    lc.step(LifecycleEvent::ServeReady);
    assert_eq!(lc.phase, LifecyclePhase::Serving);
    assert!(lc.accepts_new());
    lc.step(LifecycleEvent::Accepted);
    lc.step(LifecycleEvent::Accepted);
    lc.step(LifecycleEvent::Completed);
    assert_eq!(lc.accepted, 2);
    assert_eq!(lc.completed, 1);
}

#[test]
fn signal_drains_inflight_work_then_stops() {
    let mut lc = Lifecycle::starting();
    lc.step(LifecycleEvent::ServeReady);
    lc.step(LifecycleEvent::Accepted);
    lc.step(LifecycleEvent::ShutdownSignal);
    // The in-flight request is still owed its response: draining, not stopped.
    assert_eq!(lc.phase, LifecyclePhase::Draining);
    assert!(!lc.accepts_new());
    // A connection arriving now is not taken.
    lc.step(LifecycleEvent::Accepted);
    assert_eq!(lc.accepted, 1);
    // The in-flight request completes; only then does the gateway stop.
    lc.step(LifecycleEvent::Completed);
    assert_eq!(lc.phase, LifecyclePhase::Stopped);
    assert_eq!(lc.completed, lc.accepted);
}

#[test]
fn signal_with_nothing_in_flight_stops_at_once() {
    let mut lc = Lifecycle::starting();
    lc.step(LifecycleEvent::ServeReady);
    lc.step(LifecycleEvent::ShutdownSignal);
    assert_eq!(lc.phase, LifecyclePhase::Stopped);
}

#[test]
fn stopped_is_terminal() {
    let mut lc = Lifecycle::starting();
    lc.step(LifecycleEvent::ServeReady);
    lc.step(LifecycleEvent::ShutdownSignal);
    lc.step(LifecycleEvent::ServeReady);
    lc.step(LifecycleEvent::Accepted);
    assert_eq!(lc.phase, LifecyclePhase::Stopped);
    assert_eq!(lc.accepted, 0);
}
