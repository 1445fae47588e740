//! The hedging middleware core: the per-call race protocol and the shared
//! latency record.
//!
//! A call starts by issuing the original request to the inner service and
//! arming a timer with the hedge delay — the configured quantile of the
//! read latency window.  If the original completes first, it wins
//! unconditionally.  If the timer fires first, the policy is consulted:
//! only when the request may be retried *and* a copy of it can be produced
//! is a second, hedged call issued, after which the first of the two calls
//! to complete — success or failure — resolves the caller, the original
//! taking precedence on a tie.  The winner's elapsed time, measured from
//! the original call's start, is recorded into the write latency window.
//!
//! The asynchronous driver (futures, timers, the executor) lives outside
//! this crate; it feeds each event into the verified transitions below and
//! performs the actions they return.

use vstd::prelude::*;

use crate::histogram::Quantile;
use crate::policy::Policy;
use crate::rotation::RotatingHistogram;

verus! {

/// The state of one in-flight call.
#[derive(Clone, Copy, Debug, PartialEq, Eq, Structural)]
pub enum CallState {
    /// Only the original call is outstanding.  `timer_armed` says whether a
    /// hedge-delay timer is still pending; it is false when the hedge delay
    /// was unknown (no samples yet) or when the policy already refused a
    /// hedge, and in either case the call is a plain passthrough await of
    /// the original from here on.
    Waiting { timer_armed: bool },
    /// The original and a hedged call are both outstanding; no further
    /// timer is pending.
    HedgeArmed,
    /// Terminal: a result has been surfaced to the caller.
    Resolved,
}

/// The state a call starts in, given the hedge delay read from the latency
/// histogram at call start: a timer is armed exactly when a delay is known.
pub open spec fn spec_start_state(delay: Option<u64>) -> CallState {
    CallState::Waiting { timer_armed: delay is Some }
}

/// What the hedge-delay timer's firing decides, given the policy's two
/// answers: a hedge is issued only when the request may be retried and a
/// copy of it was produced; otherwise the call keeps waiting for the
/// original with no further timer.
pub open spec fn spec_timer_decision<Req>(can_retry: bool, cloned: Option<Req>) -> (
    CallState,
    Option<Req>,
) {
    if can_retry && cloned is Some {
        (CallState::HedgeArmed, cloned)
    } else {
        (CallState::Waiting { timer_armed: false }, None)
    }
}

/// What the original call's completion decides: the call resolves at once,
/// surfacing the original's result — success or failure — verbatim.
pub open spec fn spec_original_done<R, E>(state: CallState, result: Result<R, E>) -> (
    CallState,
    Result<R, E>,
) {
    (CallState::Resolved, result)
}

/// What the hedged call's completion decides: the call resolves, surfacing
/// the hedge's result — success or failure — verbatim.
pub open spec fn spec_hedge_done<R, E>(state: CallState, result: Result<R, E>) -> (
    CallState,
    Result<R, E>,
) {
    (CallState::Resolved, result)
}

impl CallState {
    /// The original call completed while the call was unresolved.  This is
    /// legal in every waiting phase and while the hedge race is on; on a
    /// tie the driver reports the original first, so the original's result
    /// takes precedence.  The policy is not consulted on this path.
    pub fn original_done<R, E>(self, result: Result<R, E>) -> (r: (CallState, Result<R, E>))
        requires
            self is Waiting || self is HedgeArmed,
        ensures
            r == spec_original_done(self, result),
    {
        (CallState::Resolved, result)
    }

    /// The hedged call completed first, which can only happen while the
    /// race is on.
    pub fn hedge_done<R, E>(self, result: Result<R, E>) -> (r: (CallState, Result<R, E>))
        requires
            self is HedgeArmed,
        ensures
            r == spec_hedge_done(self, result),
    {
        (CallState::Resolved, result)
    }
}

/// Apply the hedge-delay timer's firing to a call that was waiting with the
/// timer armed, given the policy's two answers for its request.
pub fn apply_timer_decision<Req>(state: CallState, can_retry: bool, cloned: Option<Req>) -> (r: (
    CallState,
    Option<Req>,
))
    requires
        state == (CallState::Waiting { timer_armed: true }),
    ensures
        r == spec_timer_decision(can_retry, cloned),
{
    if can_retry {
        match cloned {
            Some(copy) => (CallState::HedgeArmed, Some(copy)),
            None => (CallState::Waiting { timer_armed: false }, None),
        }
    } else {
        (CallState::Waiting { timer_armed: false }, None)
    }
}

/// The hedging middleware: a policy, the inner service being hedged, the
/// shared rotating latency histogram, the quantile that defines "unusually
/// long", and the period at which the histogram windows rotate.
pub struct Hedge<P, S> {
    /// The capability deciding whether and how a request may be duplicated.
    pub policy: P,
    /// The service whose calls are hedged; the driver issues both the
    /// original and the hedged call to it.
    pub inner: S,
    /// Latencies of recently completed calls, in a rotating window pair.
    pub latency_histogram: RotatingHistogram,
    /// The quantile of the read window used as the hedge delay.
    pub quantile: Quantile,
    /// How often the rotation task swaps the histogram windows.
    pub rotation_period_ms: u64,
}

impl<P, S> Hedge<P, S> {
    /// The histogram and the configured quantile are well-formed.
    pub open spec fn wf(self) -> bool {
        &&& self.latency_histogram.wf()
        &&& self.quantile.wf()
    }

    /// The configuration of a hedge instance: everything but the latency
    /// data itself.
    pub open spec fn spec_config(self) -> (Quantile, u64) {
        (self.quantile, self.rotation_period_ms)
    }

    /// Construct a hedge over `service`, gated by `policy`, hedging after
    /// the `quantile` of recently observed latencies, with windows rotated
    /// every `rotation_period_ms`.  The histogram starts empty over the
    /// default bucket bounds, so no call hedges before the first samples
    /// have been recorded and a window rotation has published them.
    pub fn new(policy: P, service: S, quantile: Quantile, rotation_period_ms: u64) -> (r: Hedge<
        P,
        S,
    >)
        requires
            quantile.wf(),
        ensures
            r.wf(),
            r.quantile == quantile,
            r.rotation_period_ms == rotation_period_ms,
            r.latency_histogram.spec_write().spec_total() == 0,
            r.latency_histogram.spec_read().spec_total() == 0,
    {
        let bounds = default_bucket_bounds();
        Hedge {
            policy,
            inner: service,
            latency_histogram: RotatingHistogram::new(bounds),
            quantile,
            rotation_period_ms,
        }
    }

    /// Construct a hedge as `new` does, but over caller-chosen bucket
    /// bounds, to balance memory against quantile resolution for the
    /// latencies expected of this downstream.
    pub fn with_bounds(
        policy: P,
        service: S,
        quantile: Quantile,
        rotation_period_ms: u64,
        bounds: Vec<u64>,
    ) -> (r: Hedge<P, S>)
        requires
            quantile.wf(),
            bounds@.len() > 0,
            forall|i: int, j: int| 0 <= i < j < bounds@.len() ==> bounds@[i] < bounds@[j],
        ensures
            r.wf(),
            r.quantile == quantile,
            r.rotation_period_ms == rotation_period_ms,
            r.latency_histogram.spec_write().spec_total() == 0,
            r.latency_histogram.spec_read().spec_total() == 0,
    {
        Hedge {
            policy,
            inner: service,
            latency_histogram: RotatingHistogram::new(bounds),
            quantile,
            rotation_period_ms,
        }
    }

    /// The hedge delay for a call starting now: the configured quantile of
    /// the read latency window, or `None` — never hedge — while that window
    /// has no samples.
    pub fn hedge_delay(&self) -> (r: Option<u64>)
        requires
            self.wf(),
        ensures
            r == self.latency_histogram.spec_read().spec_quantile(self.quantile),
            r is None <==> self.latency_histogram.spec_read().spec_total() == 0,
    {
        self.latency_histogram.read_quantile(self.quantile)
    }

    /// Begin a call.  The driver issues the original request to the inner
    /// service alongside this; the returned delay, when known, is how long
    /// the driver lets the original run before the timer fires, and the
    /// returned state is the call's starting state — armed exactly when a
    /// delay is known.
    pub fn start_call(&self) -> (r: (CallState, Option<u64>))
        requires
            self.wf(),
        ensures
            r.1 == self.latency_histogram.spec_read().spec_quantile(self.quantile),
            r.0 == spec_start_state(r.1),
    {
        let delay = self.hedge_delay();
        let state = match delay {
            Some(_) => CallState::Waiting { timer_armed: true },
            None => CallState::Waiting { timer_armed: false },
        };
        (state, delay)
    }

    /// The hedge-delay timer fired while the original call was still
    /// pending.  Consults the policy — `can_retry` first, `clone_request`
    /// only if retrying is allowed — and returns the next state together
    /// with the request copy to issue as the hedged call, if any.  Whatever
    /// the policy answered: a copy is returned exactly when the race is
    /// entered, and otherwise the call keeps waiting with no further timer.
    pub fn hedge_timer_fired<Req>(&self, state: CallState, req: &Req) -> (r: (
        CallState,
        Option<Req>,
    )) where P: Policy<Req>
        requires
            state == (CallState::Waiting { timer_armed: true }),
        ensures
            r.1 is Some ==> r.0 is HedgeArmed,
            r.1 is None ==> r.0 == (CallState::Waiting { timer_armed: false }),
            exists|can_retry: bool, cloned: Option<Req>|
                r == #[trigger] spec_timer_decision(can_retry, cloned),
    {
        if self.policy.can_retry(req) {
            let cloned = self.policy.clone_request(req);
            apply_timer_decision(state, true, cloned)
        } else {
            apply_timer_decision(state, false, None)
        }
    }

    /// Record the elapsed time of a resolved call — measured from the
    /// original call's start, whichever leg won — into the write latency
    /// window.
    pub fn record(&mut self, elapsed_ms: u64)
        requires
            old(self).wf(),
            old(self).latency_histogram.spec_write().spec_total() < u64::MAX,
        ensures
            final(self).wf(),
            RotatingHistogram::added(
                old(self).latency_histogram,
                final(self).latency_histogram,
                elapsed_ms,
            ),
            final(self).spec_config() == old(self).spec_config(),
    {
        self.latency_histogram.add(elapsed_ms);
    }

    /// One firing of the background rotation timer: publish the window just
    /// collected for quantile queries and start an empty one.
    pub fn rotate(&mut self)
        requires
            old(self).wf(),
        ensures
            final(self).wf(),
            RotatingHistogram::rotated(old(self).latency_histogram, final(self).latency_histogram),
            final(self).spec_config() == old(self).spec_config(),
    {
        self.latency_histogram.rotate();
    }
}

/// The default bucket bounds: geometric, doubling from one millisecond up
/// to the largest power of two not above half a minute, so that quantile
/// resolution is a constant factor across the expected latency range.
pub fn default_bucket_bounds() -> (r: Vec<u64>)
    ensures
        r@.len() > 0,
        r@[0] == 1,
        forall|i: int| 0 <= i < r@.len() - 1 ==> #[trigger] r@[i + 1] == 2 * r@[i],
        r@.last() <= 32768 < 2 * r@.last(),
        forall|i: int, j: int| 0 <= i < j < r@.len() ==> r@[i] < r@[j],
{
    let mut v: Vec<u64> = Vec::new();
    let mut b: u64 = 1;
    while b <= 32768
        invariant
            1 <= b <= 65536,
            v@.len() == 0 ==> b == 1,
            v@.len() > 0 ==> v@[0] == 1 && b == 2 * v@.last(),
            forall|j: int| 0 <= j < v@.len() - 1 ==> #[trigger] v@[j + 1] == 2 * v@[j],
            forall|j: int| 0 <= j < v@.len() ==> v@[j] < b,
            forall|i: int, j: int| 0 <= i < j < v@.len() ==> v@[i] < v@[j],
        decreases 65536 - b,
    {
        v.push(b);
        b = b * 2;
    }
    v
}

/// No premature hedge: when the original call completes while the call is
/// still only waiting — whether or not the timer is armed — the call
/// resolves at once with the original's result, and no transition on that
/// path produces a hedge request or consults the policy.
pub proof fn lemma_no_premature_hedge<R, E>(delay: Option<u64>, result: Result<R, E>)
    ensures
        spec_start_state(delay) is Waiting,
        spec_original_done(spec_start_state(delay), result).0 is Resolved,
        spec_original_done(spec_start_state(delay), result).1 == result,
{
}

/// Hedge wins: when the timer fires, both policy gates pass, and the hedged
/// call completes before the original, the race is entered with exactly the
/// policy's copy and the call resolves with the hedge's result.
pub proof fn lemma_hedge_wins<Req, R, E>(copy: Req, hedge_result: Result<R, E>)
    ensures
        spec_timer_decision::<Req>(true, Some(copy)).0 is HedgeArmed,
        spec_timer_decision::<Req>(true, Some(copy)).1 == Some(copy),
        spec_hedge_done(spec_timer_decision::<Req>(true, Some(copy)).0, hedge_result).0
            is Resolved,
        spec_hedge_done(spec_timer_decision::<Req>(true, Some(copy)).0, hedge_result).1
            == hedge_result,
{
}

/// Original wins after hedge issued: with the race on, the original
/// completing first resolves the call with the original's result.
pub proof fn lemma_original_wins_after_hedge<Req, R, E>(copy: Req, orig_result: Result<R, E>)
    ensures
        spec_original_done(spec_timer_decision::<Req>(true, Some(copy)).0, orig_result).0
            is Resolved,
        spec_original_done(spec_timer_decision::<Req>(true, Some(copy)).0, orig_result).1
            == orig_result,
{
}

/// Policy gating: when either gate refuses — the request may not be retried,
/// or no copy of it could be produced — the timer's firing issues no hedge
/// request and arms no further timer, and the call resolves only via the
/// original's eventual result.
pub proof fn lemma_policy_gating<Req, R, E>(
    can_retry: bool,
    cloned: Option<Req>,
    orig_result: Result<R, E>,
)
    requires
        !can_retry || cloned is None,
    ensures
        spec_timer_decision(can_retry, cloned).1 is None,
        spec_timer_decision(can_retry, cloned).0 == (CallState::Waiting { timer_armed: false }),
        spec_original_done(spec_timer_decision(can_retry, cloned).0, orig_result).0 is Resolved,
        spec_original_done(spec_timer_decision(can_retry, cloned).0, orig_result).1 == orig_result,
{
}

/// A hedge request leaves the timer decision only when both gates pass, and
/// it is then exactly the policy's copy, with the race entered.
pub proof fn lemma_hedge_only_when_gates_pass<Req>(can_retry: bool, cloned: Option<Req>)
    ensures
        spec_timer_decision(can_retry, cloned).1 is Some ==> can_retry && cloned is Some
            && spec_timer_decision(can_retry, cloned).1 == cloned && spec_timer_decision(
            can_retry,
            cloned,
        ).0 is HedgeArmed,
{
}

} // verus!
