//! A request-hedging middleware core for a generic request/response service.
//!
//! When an outbound call takes unusually long, a second ("hedge") copy of the
//! request is issued to the same downstream while the first is still
//! outstanding, and whichever response arrives first wins.  The "unusually
//! long" threshold is learned continuously from the service's own observed
//! latency distribution: a rolling bucketed histogram is rotated periodically,
//! and the hedge delay is a configured quantile of the most recently
//! completed window.
//!
//! This crate holds the verified decision core: the histogram and its
//! quantile math, the rotation of the read/write histogram pair, the policy
//! gate, the per-call race state machine, and the timeout error
//! classification.  The asynchronous plumbing that drives these decisions
//! (timers, futures, the inner service) lives outside the verified core.

pub mod histogram;
pub mod policy;
pub mod rotation;
pub mod hedge;
pub mod timeout;

pub use histogram::Histogram;
pub use histogram::Quantile;
pub use rotation::RotatingHistogram;
pub use policy::Policy;
pub use hedge::Hedge;
pub use hedge::apply_timer_decision;
pub use hedge::CallState;
pub use timeout::Timeout;
pub use timeout::TimeoutError;
pub use timeout::HumanDuration;
