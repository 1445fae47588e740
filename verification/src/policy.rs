//! The pluggable per-request hedging capability.

use vstd::prelude::*;

verus! {

/// Decides, per request, whether hedging is permissible and how to produce
/// a second, independent copy of a request.
///
/// Supplied once by the integrator at construction.  Implementations are
/// expected to be cheap, pure, side-effect-free and non-blocking: they are
/// invoked synchronously on the calling path, after the hedge-delay timer
/// has fired and before any duplicate call is issued.  `can_retry` must
/// return false for requests whose side effects are unsafe to duplicate;
/// `clone_request` must either produce a request-equivalent copy or return
/// `None`, in which case hedging must not occur regardless of `can_retry`.
pub trait Policy<Req> {
    /// Whether a second copy of this request may be issued at all.
    fn can_retry(&self, req: &Req) -> bool;

    /// A request-equivalent copy of `req`, or `None` when the request
    /// cannot be safely duplicated (for example, a body already consumed).
    fn clone_request(&self, req: &Req) -> Option<Req>;
}

} // verus!
