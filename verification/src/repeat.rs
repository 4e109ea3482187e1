//! Keyboard auto-repeat parameter resolution.
//!
//! The input-method-v2 `repeat_info` event carries `(rate, delay)` where
//! `rate` is keys/sec and `delay` is milliseconds. The host arms its repeat
//! timer with the values resolved here.
use vstd::prelude::*;

use crate::time::{Span, NANOS_PER_MILLI};

verus! {

/// Default initial delay before auto-repeat begins, in milliseconds (the X
/// server default; used until the compositor sends `repeat_info`).
pub const DEFAULT_DELAY_MS: u64 = 600;

/// Default repeat rate in keys/sec, matching the X server default.
pub const DEFAULT_RATE: u32 = 30;

/// Repeat interval in milliseconds for `rate` keys/sec: `1000 / rate`, at
/// least 1 ms; a zero rate falls back to the default rate's interval.
pub open spec fn interval_ms_spec(rate: u32) -> int {
    if rate == 0 {
        1000int / 30
    } else if 1000int / (rate as int) < 1 {
        1
    } else {
        1000int / (rate as int)
    }
}

/// Compute the repeat interval from a Wayland keyboard `repeat_rate` in keys
/// per second. Never zero: a pathological high rate (e.g. 10000) gives 1 ms,
/// and a zero rate (which callers should have rejected) gives the default
/// rate's interval rather than dividing by zero.
pub fn interval_from_rate(repeat_rate: u32) -> (interval: Span)
    ensures
        interval.nanos == interval_ms_spec(repeat_rate) * NANOS_PER_MILLI,
        interval.nanos >= NANOS_PER_MILLI,
{
    if repeat_rate == 0 {
        return Span::from_millis(1000 / 30);
    }
    let ms = 1000 / repeat_rate;
    let ms = if ms < 1 { 1 } else { ms };
    Span::from_millis(ms as u64)
}

/// Resolve the auto-repeat delay and interval from the compositor's
/// `repeat_info` (if any).
///
/// A `rate` of `0` (or below) is the protocol signal for "do not repeat", so
/// the result is `None` and the caller skips arming the timer. With no
/// `repeat_info` yet, the X-server defaults are used. A negative delay counts
/// as zero.
pub fn resolve_repeat_params(compositor_info: Option<(i32, i32)>) -> (params: Option<(Span, Span)>)
    ensures
        compositor_info is None ==> params == Some((
            Span { nanos: (DEFAULT_DELAY_MS * NANOS_PER_MILLI) as u64 },
            Span { nanos: (interval_ms_spec(DEFAULT_RATE) * NANOS_PER_MILLI) as u64 },
        )),
        compositor_info matches Some((rate, delay)) ==> {
            &&& rate <= 0 ==> params is None
            &&& rate > 0 ==> params == Some((
                Span { nanos: ((if delay < 0 { 0 } else { delay as int }) * NANOS_PER_MILLI) as u64 },
                Span { nanos: (interval_ms_spec(rate as u32) * NANOS_PER_MILLI) as u64 },
            ))
        },
{
    match compositor_info {
        Some((rate, delay)) => {
            if rate > 0 {
                let delay_ms: u64 = if delay < 0 { 0 } else { delay as u64 };
                let d = Span::from_millis(delay_ms);
                let i = interval_from_rate(rate as u32);
                Some((d, i))
            } else {
                None
            }
        },
        None => Some((Span::from_millis(DEFAULT_DELAY_MS), interval_from_rate(DEFAULT_RATE))),
    }
}

} // verus!
