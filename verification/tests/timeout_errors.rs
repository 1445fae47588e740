//! The timeout wrapper's configuration and error classification.

use hedge::timeout::DeadlineFailure;
use hedge::timeout::TimeoutErrorKind;
use hedge::HumanDuration;
use hedge::Timeout;

#[test]
fn new_timeout_is_named_operation() {
    let t = Timeout::new("svc", 250);
    assert_eq!(t.inner, "svc");
    assert_eq!(t.duration_ms, 250);
    assert_eq!(t.name, "operation");
}

#[test]
fn named_replaces_the_name_only() {
    let t = Timeout::new(7u32, 250).named("connect");
    assert_eq!(t.inner, 7);
    assert_eq!(t.duration_ms, 250);
    assert_eq!(t.name, "connect");
}

#[test]
fn inner_error_passes_through() {
    let t = Timeout::new((), 250).named("connect");
    let e = t.error("refused");
    assert_eq!(e.name, "connect");
    assert!(matches!(e.kind, TimeoutErrorKind::Error("refused")));
}

#[test]
fn deadline_error_classification() {
    let t: Timeout<()> = Timeout::new((), 250).named("connect");

    let elapsed = t.deadline_error::<&str>(DeadlineFailure::Elapsed);
    assert_eq!(elapsed.name, "connect");
    assert!(matches!(elapsed.kind, TimeoutErrorKind::Timeout(250)));

    let timer = t.deadline_error::<&str>(DeadlineFailure::TimerFault);
    assert_eq!(timer.name, "connect");
    assert!(matches!(timer.kind, TimeoutErrorKind::Timer));

    let inner = t.deadline_error(DeadlineFailure::Inner("reset"));
    assert_eq!(inner.name, "connect");
    assert!(matches!(inner.kind, TimeoutErrorKind::Error("reset")));
}

#[test]
fn human_duration_splits_exactly() {
    assert_eq!(HumanDuration(0).as_parts(), (0, 0));
    assert_eq!(HumanDuration(10).as_parts(), (0, 10));
    assert_eq!(HumanDuration(1_000).as_parts(), (1, 0));
    assert_eq!(HumanDuration(1_500).as_parts(), (1, 500));
    assert_eq!(HumanDuration(61_250).as_parts(), (61, 250));
}

#[test]
fn human_duration_from_milliseconds() {
    let d = HumanDuration::from(1_500);
    assert_eq!(d.0, 1_500);
    let (secs, ms) = d.as_parts();
    assert_eq!(secs, 1);
    assert_eq!(ms, 500);
}
