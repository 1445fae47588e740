//! The per-call race protocol, driven event by event: the original call,
//! the hedge-delay timer, the policy gates, and the hedged call.

use hedge::CallState;
use hedge::Hedge;
use hedge::Policy;
use hedge::Quantile;

type Req = &'static str;
type Res = &'static str;
type Error = &'static str;

static NOT_RETRYABLE: &'static str = "NOT_RETRYABLE";
static NOT_CLONABLE: &'static str = "NOT_CLONABLE";

#[derive(Clone)]
struct TestPolicy;

impl Policy<Req> for TestPolicy {
    fn can_retry(&self, req: &Req) -> bool {
        *req != NOT_RETRYABLE
    }

    fn clone_request(&self, req: &Req) -> Option<Req> {
        if *req == NOT_CLONABLE {
            None
        } else {
            Some(*req)
        }
    }
}

/// A hedge over a unit inner service (the tests play the driver and the
/// downstream themselves), hedging at the 0.9 quantile with a one-minute
/// rotation period, and with a read window already holding 8 samples at
/// 1 ms and 2 samples at 10 ms, so the hedge delay is 10 ms.
fn new_service() -> Hedge<TestPolicy, ()> {
    let mut service = Hedge::with_bounds(
        TestPolicy,
        (),
        Quantile::new(9, 10),
        60_000,
        vec![1, 10, 100, 1_000, 10_000],
    );
    populate_histogram(&mut service);
    service
}

/// Recording into the write window and rotating once publishes the samples
/// for quantile queries, so the tests need not wait for a rotation period.
fn populate_histogram(service: &mut Hedge<TestPolicy, ()>) {
    for _ in 0..8 {
        service.record(1);
    }
    for _ in 8..10 {
        service.record(10);
    }
    service.rotate();
}

#[test]
fn hedge_orig_completes_first() {
    let service = new_service();
    let req: Req = "orig";

    // The orig request is issued and the timer armed with the learned delay.
    let (state, delay) = service.start_call();
    assert_eq!(delay, Some(10));
    assert!(matches!(state, CallState::Waiting { timer_armed: true }));

    // advance(timer, ms(10)): the delay elapses with the original pending.
    let (state, hedge_req) = service.hedge_timer_fired(state, &req);
    // The hedge has been issued.
    assert_eq!(hedge_req, Some("orig"));
    assert!(matches!(state, CallState::HedgeArmed));

    // The original responds first: fut gets the orig response.
    let (state, result): (CallState, Result<Res, Error>) = state.original_done(Ok("orig-done"));
    assert!(matches!(state, CallState::Resolved));
    assert_eq!(result.unwrap(), "orig-done");
}

#[test]
fn hedge_hedge_completes_first() {
    let service = new_service();
    let req: Req = "orig";

    // The orig request is issued and the timer armed with the learned delay.
    let (state, delay) = service.start_call();
    assert_eq!(delay, Some(10));
    assert!(matches!(state, CallState::Waiting { timer_armed: true }));

    // advance(timer, ms(10)): the delay elapses with the original pending.
    let (state, hedge_req) = service.hedge_timer_fired(state, &req);
    // The hedge has been issued.
    assert_eq!(hedge_req, Some("orig"));
    assert!(matches!(state, CallState::HedgeArmed));

    // The hedge responds first: fut gets the hedge response.
    let (state, result): (CallState, Result<Res, Error>) = state.hedge_done(Ok("hedge-done"));
    assert!(matches!(state, CallState::Resolved));
    assert_eq!(result.unwrap(), "hedge-done");
}

#[test]
fn completes_before_hedge() {
    let service = new_service();

    // The orig request is issued; the timer is armed but never fires.
    let (state, delay) = service.start_call();
    assert!(delay.is_some());
    assert!(matches!(state, CallState::Waiting { timer_armed: true }));

    // The original responds before the delay elapses: no hedge is ever
    // issued (no transition on this path returns a request), and fut gets
    // the orig response.
    let (state, result): (CallState, Result<Res, Error>) = state.original_done(Ok("orig-done"));
    assert!(matches!(state, CallState::Resolved));
    assert_eq!(result.unwrap(), "orig-done");
}

#[test]
fn request_not_retyable() {
    let service = new_service();
    let req: Req = NOT_RETRYABLE;

    // The orig request is issued and the timer armed with the learned delay.
    let (state, delay) = service.start_call();
    assert_eq!(delay, Some(10));
    assert!(matches!(state, CallState::Waiting { timer_armed: true }));

    // advance(timer, ms(10)): the delay elapses, but the policy refuses to
    // retry, so no hedge is issued and no further timer is armed.
    let (state, hedge_req) = service.hedge_timer_fired(state, &req);
    assert!(hedge_req.is_none());
    assert!(matches!(state, CallState::Waiting { timer_armed: false }));

    // The call resolves only via the original's eventual response.
    let (state, result): (CallState, Result<Res, Error>) = state.original_done(Ok("orig-done"));
    assert!(matches!(state, CallState::Resolved));
    assert_eq!(result.unwrap(), "orig-done");
}

#[test]
fn request_not_clonable() {
    let service = new_service();
    let req: Req = NOT_CLONABLE;

    // The orig request is issued and the timer armed with the learned delay.
    let (state, delay) = service.start_call();
    assert_eq!(delay, Some(10));
    assert!(matches!(state, CallState::Waiting { timer_armed: true }));

    // advance(timer, ms(10)): the delay elapses, the policy would retry,
    // but the request cannot be cloned, so no hedge is issued.
    let (state, hedge_req) = service.hedge_timer_fired(state, &req);
    assert!(hedge_req.is_none());
    assert!(matches!(state, CallState::Waiting { timer_armed: false }));

    // The call resolves only via the original's eventual response.
    let (state, result): (CallState, Result<Res, Error>) = state.original_done(Ok("orig-done"));
    assert!(matches!(state, CallState::Resolved));
    assert_eq!(result.unwrap(), "orig-done");
}

#[test]
fn unknown_delay_never_hedges() {
    // A fresh hedge has an empty read window: the hedge delay is unknown,
    // no timer is armed, and the call is a plain passthrough await.
    let service: Hedge<TestPolicy, ()> =
        Hedge::new(TestPolicy, (), Quantile::new(9, 10), 60_000);
    let (state, delay) = service.start_call();
    assert_eq!(delay, None);
    assert!(matches!(state, CallState::Waiting { timer_armed: false }));

    let (state, result): (CallState, Result<Res, Error>) = state.original_done(Ok("orig-done"));
    assert!(matches!(state, CallState::Resolved));
    assert_eq!(result.unwrap(), "orig-done");
}

#[test]
fn failure_surfaces_verbatim() {
    // An inner-service error is propagated as the call's result, untouched:
    // a fast failure is not hedge-worthy.
    let service = new_service();
    let (state, _delay) = service.start_call();
    let (state, result): (CallState, Result<Res, Error>) = state.original_done(Err("boom"));
    assert!(matches!(state, CallState::Resolved));
    assert_eq!(result.unwrap_err(), "boom");
}

#[test]
fn hedge_failure_surfaces_after_race() {
    // Once the race is on, the first completion wins, success or failure.
    let service = new_service();
    let req: Req = "orig";
    let (state, _delay) = service.start_call();
    let (state, hedge_req) = service.hedge_timer_fired(state, &req);
    assert_eq!(hedge_req, Some("orig"));
    let (state, result): (CallState, Result<Res, Error>) = state.hedge_done(Err("hedge-broke"));
    assert!(matches!(state, CallState::Resolved));
    assert_eq!(result.unwrap_err(), "hedge-broke");
}
