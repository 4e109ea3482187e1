//! The decisions of a nonblocking engine channel with one absolute deadline
//! for a whole frame: how long the next readiness wait may last, and what a
//! wait's outcome means. The descriptor, the clock and `poll` itself stay
//! at the edge.
use vstd::prelude::*;

use crate::time::{millis_of, Timestamp};

verus! {

/// `poll` flag: the descriptor is not open.
pub const POLL_NVAL: i16 = 0x20;

/// Largest wait, in milliseconds, that `poll` takes.
pub const MAX_POLL_WAIT_MS: i32 = 0x7fff_ffff;

/// Whether to wait again before the deadline, and for how long.
#[derive(Debug, Clone, Copy, PartialEq, Eq, Structural)]
pub enum WaitPlan {
    /// The deadline has passed: the exchange timed out.
    Expired,
    /// Wait for readiness at most this many milliseconds.
    Poll(i32),
}

/// The wait before `deadline` at `now`: expired once no time is left,
/// otherwise the time left in whole milliseconds, at least one and at most
/// the largest wait `poll` takes.
pub open spec fn wait_plan_spec(deadline: Timestamp, now: Timestamp) -> WaitPlan {
    let remaining: int = if now.nanos <= deadline.nanos {
        deadline.nanos - now.nanos
    } else {
        0
    };
    if remaining == 0 {
        WaitPlan::Expired
    } else {
        let ms = millis_of(remaining);
        WaitPlan::Poll(
            if ms < 1 {
                1
            } else if ms > MAX_POLL_WAIT_MS {
                MAX_POLL_WAIT_MS
            } else {
                ms as i32
            },
        )
    }
}

/// Plans the next readiness wait of a channel whose deadline is `deadline`.
pub fn plan_wait(deadline: Timestamp, now: Timestamp) -> (p: WaitPlan)
    ensures
        p == wait_plan_spec(deadline, now),
{
    let remaining = deadline.saturating_duration_since(now);
    if remaining.nanos == 0 {
        WaitPlan::Expired
    } else {
        let ms = remaining.as_millis();
        if ms < 1 {
            WaitPlan::Poll(1)
        } else if ms > 0x7fff_ffffu64 {
            WaitPlan::Poll(MAX_POLL_WAIT_MS)
        } else {
            WaitPlan::Poll(ms as i32)
        }
    }
}

/// What one `poll` on the channel's descriptor came to.
#[derive(Debug, Clone, Copy, PartialEq, Eq, Structural)]
pub enum WaitStep {
    /// The descriptor is ready: retry the read or write.
    Ready,
    /// The descriptor became invalid: the exchange fails as a broken pipe.
    Invalid,
    /// The wait ran out: the exchange times out.
    TimedOut,
    /// A signal interrupted the wait: plan it again.
    Retry,
    /// `poll` failed: the exchange fails with its error.
    Failed,
}

/// The meaning of `poll`'s `result`, with the descriptor's `revents` and
/// whether a failure was an interruption.
pub open spec fn wait_step_spec(result: i32, revents: i16, interrupted: bool) -> WaitStep {
    if result > 0 {
        if revents & POLL_NVAL != 0 {
            WaitStep::Invalid
        } else {
            WaitStep::Ready
        }
    } else if result == 0 {
        WaitStep::TimedOut
    } else if interrupted {
        WaitStep::Retry
    } else {
        WaitStep::Failed
    }
}

/// Reads the outcome of one readiness wait.
pub fn wait_step(result: i32, revents: i16, interrupted: bool) -> (s: WaitStep)
    ensures
        s == wait_step_spec(result, revents, interrupted),
{
    if result > 0 {
        if revents & POLL_NVAL != 0 {
            WaitStep::Invalid
        } else {
            WaitStep::Ready
        }
    } else if result == 0 {
        WaitStep::TimedOut
    } else if interrupted {
        WaitStep::Retry
    } else {
        WaitStep::Failed
    }
}

/// A wait is planned only while time is left, and never for less than a
/// millisecond: a live deadline cannot be turned into a busy poll with a
/// zero timeout.
pub proof fn lemma_planned_wait_is_positive(deadline: Timestamp, now: Timestamp)
    ensures
        wait_plan_spec(deadline, now) matches WaitPlan::Poll(ms) ==> 1 <= ms && now.nanos
            < deadline.nanos,
        wait_plan_spec(deadline, now) is Expired <==> deadline.nanos <= now.nanos,
{
}

} // verus!
