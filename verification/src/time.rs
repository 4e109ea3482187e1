//! Monotonic time values used by the pacing and timeout policies.
//!
//! A [`Timestamp`] is a reading of a monotonic clock in nanoseconds from an
//! arbitrary origin; a [`Span`] is a non-negative length of time in
//! nanoseconds. The host converts its clock readings into these values at
//! the edge, so every policy in this crate is a pure function of them.
use vstd::prelude::*;

verus! {

/// Nanoseconds in one millisecond.
pub const NANOS_PER_MILLI: u64 = 1_000_000;

/// Nanoseconds in one second.
pub const NANOS_PER_SEC: u64 = 1_000_000_000;

/// A reading of a monotonic clock, in nanoseconds.
#[derive(Debug, Clone, Copy, PartialEq, Eq, Structural)]
pub struct Timestamp {
    pub nanos: u64,
}

/// A length of time, in nanoseconds.
#[derive(Debug, Clone, Copy, PartialEq, Eq, Structural)]
pub struct Span {
    pub nanos: u64,
}

/// Whole milliseconds in a span of `nanos` nanoseconds (rounded down).
pub open spec fn millis_of(nanos: int) -> int {
    nanos / (NANOS_PER_MILLI as int)
}

impl Span {
    /// The empty span.
    pub fn zero() -> (s: Span)
        ensures
            s.nanos == 0,
    {
        Span { nanos: 0 }
    }

    /// A span of `nanos` nanoseconds.
    pub fn from_nanos(nanos: u64) -> (s: Span)
        ensures
            s.nanos == nanos,
    {
        Span { nanos }
    }

    /// A span of `ms` milliseconds.
    pub fn from_millis(ms: u64) -> (s: Span)
        requires
            ms * NANOS_PER_MILLI <= u64::MAX,
        ensures
            s.nanos == ms * NANOS_PER_MILLI,
    {
        Span { nanos: ms * NANOS_PER_MILLI }
    }

    /// A span of `secs` seconds.
    pub fn from_secs(secs: u64) -> (s: Span)
        requires
            secs * NANOS_PER_SEC <= u64::MAX,
        ensures
            s.nanos == secs * NANOS_PER_SEC,
    {
        Span { nanos: secs * NANOS_PER_SEC }
    }

    /// Whole milliseconds in this span, rounded down.
    pub fn as_millis(self) -> (ms: u64)
        ensures
            ms == millis_of(self.nanos as int),
    {
        self.nanos / NANOS_PER_MILLI
    }
}

impl Timestamp {
    /// The clock reading `nanos`.
    pub fn from_nanos(nanos: u64) -> (t: Timestamp)
        ensures
            t.nanos == nanos,
    {
        Timestamp { nanos }
    }

    /// The reading `span` after this one. The sum must stay on the clock.
    pub fn add(self, span: Span) -> (t: Timestamp)
        requires
            self.nanos + span.nanos <= u64::MAX,
        ensures
            t.nanos == self.nanos + span.nanos,
    {
        Timestamp { nanos: self.nanos + span.nanos }
    }

    /// Time elapsed from `earlier` to `self`, or zero when `earlier` is later.
    pub fn saturating_duration_since(self, earlier: Timestamp) -> (s: Span)
        ensures
            earlier.nanos <= self.nanos ==> s.nanos == self.nanos - earlier.nanos,
            earlier.nanos > self.nanos ==> s.nanos == 0,
    {
        if earlier.nanos <= self.nanos {
            Span { nanos: self.nanos - earlier.nanos }
        } else {
            Span { nanos: 0 }
        }
    }
}

} // verus!
