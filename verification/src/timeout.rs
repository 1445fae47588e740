//! A timeout that wraps an underlying operation and produces a named,
//! descriptive timeout error.
//!
//! This module holds the timeout's configuration and its error
//! classification.  The deadline enforcement itself — bounding a future with
//! a timer — is asynchronous plumbing that lives outside the verified core;
//! it reports back one of the three `DeadlineFailure` cases, which
//! `deadline_error` turns into this crate's error type.

use vstd::prelude::*;

verus! {

/// A timeout that wraps an underlying operation, with a human-readable name
/// for error messages.
#[derive(Debug, Clone)]
pub struct Timeout<T> {
    /// The wrapped operation or service.
    pub inner: T,
    /// How long the operation may run, in milliseconds.
    pub duration_ms: u64,
    /// The name the operation goes by in timeout errors.
    pub name: &'static str,
}

/// An error representing that an operation timed out, failed on its own, or
/// could not be timed at all.
#[derive(Debug)]
pub struct TimeoutError<E> {
    /// The name of the operation that failed.
    pub name: &'static str,
    /// What went wrong.
    pub kind: TimeoutErrorKind<E>,
}

/// The three ways a deadline-bounded operation ends other than succeeding.
#[derive(Debug)]
pub enum TimeoutErrorKind<E> {
    /// The underlying operation timed out after the given duration, in
    /// milliseconds.
    Timeout(u64),
    /// The underlying operation itself failed.
    Error(E),
    /// The timer enforcing the deadline failed.
    Timer,
}

/// What the deadline plumbing observed when a bounded operation did not
/// succeed: the timer itself failed, the deadline elapsed, or the operation
/// failed on its own.
#[derive(Debug)]
pub enum DeadlineFailure<E> {
    /// The timer enforcing the deadline failed.
    TimerFault,
    /// The deadline elapsed before the operation completed.
    Elapsed,
    /// The operation failed with its own error.
    Inner(E),
}

/// How a deadline failure is classified into an error kind: a timer fault
/// is reported as such, an elapsed deadline becomes a timeout carrying the
/// configured duration, and the operation's own error passes through
/// verbatim.
pub open spec fn spec_classify<E>(duration_ms: u64, failure: DeadlineFailure<E>) -> TimeoutErrorKind<
    E,
> {
    match failure {
        DeadlineFailure::TimerFault => TimeoutErrorKind::Timer,
        DeadlineFailure::Elapsed => TimeoutErrorKind::Timeout(duration_ms),
        DeadlineFailure::Inner(e) => TimeoutErrorKind::Error(e),
    }
}

impl<T> Timeout<T> {
    /// Construct a new `Timeout` wrapping `inner`, named "operation" until
    /// `named` replaces the name.
    pub fn new(inner: T, duration_ms: u64) -> (r: Timeout<T>)
        ensures
            r.inner == inner,
            r.duration_ms == duration_ms,
            r.name@ == "operation"@,
    {
        Timeout { inner, duration_ms, name: "operation" }
    }

    /// The same timeout under a new name.
    pub fn named(self, name: &'static str) -> (r: Timeout<T>)
        ensures
            r.inner == self.inner,
            r.duration_ms == self.duration_ms,
            r.name == name,
    {
        Timeout { inner: self.inner, duration_ms: self.duration_ms, name }
    }

    /// Wrap an error of the underlying operation, keeping it verbatim.
    pub fn error<E>(&self, error: E) -> (r: TimeoutError<E>)
        ensures
            r.name == self.name,
            r.kind == TimeoutErrorKind::Error(error),
    {
        TimeoutError { name: self.name, kind: TimeoutErrorKind::Error(error) }
    }

    /// Classify the failure of a deadline-bounded operation into this
    /// timeout's error, under this timeout's name and duration.
    pub fn deadline_error<E>(&self, failure: DeadlineFailure<E>) -> (r: TimeoutError<E>)
        ensures
            r.name == self.name,
            r.kind == spec_classify(self.duration_ms, failure),
    {
        let kind = match failure {
            DeadlineFailure::TimerFault => TimeoutErrorKind::Timer,
            DeadlineFailure::Elapsed => TimeoutErrorKind::Timeout(self.duration_ms),
            DeadlineFailure::Inner(e) => TimeoutErrorKind::Error(e),
        };
        TimeoutError { name: self.name, kind }
    }
}

/// A duration which pretty-prints as fractional seconds.
///
/// It carries whole milliseconds; `as_parts` is the exact split into whole
/// seconds and leftover milliseconds that the rendering uses.
#[derive(Copy, Clone, Debug)]
pub struct HumanDuration(pub u64);

impl HumanDuration {
    /// The whole seconds and the leftover milliseconds of this duration:
    /// together they make the duration up exactly.
    pub fn as_parts(&self) -> (r: (u64, u64))
        ensures
            r.0 == self.0 / 1000,
            r.1 == self.0 % 1000,
            r.1 < 1000,
            r.0 * 1000 + r.1 == self.0,
    {
        (self.0 / 1000, self.0 % 1000)
    }
}

impl From<u64> for HumanDuration {
    /// The duration of `d` milliseconds.
    fn from(d: u64) -> (r: HumanDuration) {
        HumanDuration(d)
    }
}

impl vstd::std_specs::convert::FromSpecImpl<u64> for HumanDuration {
    open spec fn obeys_from_spec() -> bool {
        true
    }

    open spec fn from_spec(d: u64) -> HumanDuration {
        HumanDuration(d)
    }
}

} // verus!
