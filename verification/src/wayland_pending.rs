//! Pending Wayland request tracking.
//!
//! Three protocol request/response pairs the host depends on are tracked so
//! that a compositor which never answers is named in the logs:
//!
//! - `commit(serial)`  →  `done` event (the input-method serial handshake)
//! - `grab_keyboard`   →  `keymap` event (grab keymap delivery)
//! - anchor probe      →  `text_input_rectangle` event (caret-rect delivery)
//!
//! Each pair records when its request was sent and reports a timeout once per
//! stalled episode (the compositor is never retried). The earliest in-flight
//! deadline feeds the event-loop poll reducer so the report fires promptly.
//! These are diagnostic thresholds, not correctness gates.
use vstd::prelude::*;

use crate::time::{Span, Timestamp, millis_of};

verus! {

/// No `done` after this long (2 s) means the compositor is not replying to the
/// input-method serial handshake.
pub const COMMIT_DONE_TIMEOUT_NS: u64 = 2_000_000_000;

/// No `keymap` after this long (3 s) means the grab was created but the
/// compositor never delivered its keymap.
pub const GRAB_KEYMAP_TIMEOUT_NS: u64 = 3_000_000_000;

/// No `text_input_rectangle` after an anchor probe within this long (1.5 s)
/// means the compositor is not reporting the caret rect for the popup.
pub const PROBE_RECT_TIMEOUT_NS: u64 = 1_500_000_000;

/// Milliseconds left before `timeout` elapses for a request sent at `since`,
/// clamped to `[0, i32::MAX]`.
pub open spec fn remaining_ms_spec(since: Timestamp, timeout: u64, now: Timestamp) -> int {
    let elapsed = elapsed_nanos(since, now);
    if elapsed >= timeout {
        0
    } else if millis_of(timeout - elapsed) > i32::MAX {
        i32::MAX as int
    } else {
        millis_of(timeout - elapsed)
    }
}

/// Time elapsed from `since` to `now`, zero when `since` is later.
pub open spec fn elapsed_nanos(since: Timestamp, now: Timestamp) -> int {
    if now.nanos >= since.nanos { now.nanos - since.nanos } else { 0 }
}

/// Whether a request sent at `since` has been outstanding for at least `timeout`.
pub open spec fn expired(since: Timestamp, timeout: u64, now: Timestamp) -> bool {
    elapsed_nanos(since, now) >= timeout
}

/// A single in-flight request awaiting a compositor response.
#[derive(Debug, Clone, Copy, PartialEq, Eq, Structural)]
pub struct PendingSlot {
    /// When the request was sent; `None` when nothing is pending.
    pub sent_at: Option<Timestamp>,
    /// Suppresses repeats within one episode (request sent → response).
    pub reported: bool,
}

impl PendingSlot {
    /// A slot with nothing in flight.
    pub fn new() -> (s: PendingSlot)
        ensures
            s.sent_at is None,
            !s.reported,
    {
        PendingSlot { sent_at: None, reported: false }
    }

    /// Record that a request was just sent; this starts a new episode.
    pub fn note_sent(&mut self, now: Timestamp)
        ensures
            final(self).sent_at == Some(now),
            !final(self).reported,
    {
        self.sent_at = Some(now);
        self.reported = false;
    }

    /// Record that the awaited response arrived. Returns the elapsed time
    /// since the request was sent, if one was outstanding.
    pub fn note_resolved(&mut self, now: Timestamp) -> (elapsed: Option<Span>)
        ensures
            final(self).sent_at is None,
            !final(self).reported,
            old(self).sent_at is None ==> elapsed is None,
            old(self).sent_at matches Some(since) ==> elapsed == Some(Span {
                nanos: if now.nanos >= since.nanos { (now.nanos - since.nanos) as u64 } else { 0 },
            }),
    {
        let elapsed = match self.sent_at {
            Some(since) => Some(now.saturating_duration_since(since)),
            None => None,
        };
        self.sent_at = None;
        self.reported = false;
        elapsed
    }

    /// Milliseconds remaining until the timeout fires, for poll-timeout
    /// reduction. `None` when nothing is in flight.
    pub fn deadline_remaining_ms(&self, timeout: u64, now: Timestamp) -> (ms: Option<i32>)
        ensures
            self.sent_at is None ==> ms is None,
            self.sent_at matches Some(since) ==> ms == Some(
                remaining_ms_spec(since, timeout, now) as i32,
            ),
    {
        let since = match self.sent_at {
            Some(since) => since,
            None => return None,
        };
        let elapsed = now.saturating_duration_since(since);
        if elapsed.nanos >= timeout {
            Some(0)
        } else {
            let remaining = Span::from_nanos(timeout - elapsed.nanos).as_millis();
            if remaining > i32::MAX as u64 {
                Some(i32::MAX)
            } else {
                Some(remaining as i32)
            }
        }
    }

    /// Returns `true` exactly once per stalled episode: the first time it is
    /// asked after the outstanding request has been pending for `timeout`.
    pub fn check_timed_out(&mut self, timeout: u64, now: Timestamp) -> (fired: bool)
        ensures
            fired == (old(self).sent_at matches Some(since) && !old(self).reported && expired(
                since,
                timeout,
                now,
            )),
            final(self).sent_at == old(self).sent_at,
            final(self).reported == (old(self).reported || fired),
            (*final(self), fired) == check_step(*old(self), timeout, now),
    {
        if let Some(since) = self.sent_at {
            if !self.reported && now.saturating_duration_since(since).nanos >= timeout {
                self.reported = true;
                return true;
            }
        }
        false
    }
}

/// One timeout check of a slot: the slot afterwards, and whether it fired.
pub open spec fn check_step(s: PendingSlot, timeout: u64, now: Timestamp) -> (PendingSlot, bool) {
    let fired = s.sent_at matches Some(since) && !s.reported && expired(since, timeout, now);
    (PendingSlot { sent_at: s.sent_at, reported: s.reported || fired }, fired)
}

/// The slot after a check at each of `times`, in order.
pub open spec fn slot_after(s: PendingSlot, timeout: u64, times: Seq<Timestamp>) -> PendingSlot
    decreases times.len(),
{
    if times.len() == 0 {
        s
    } else {
        check_step(slot_after(s, timeout, times.drop_last()), timeout, times.last()).0
    }
}

/// Whether the check at `times[k]`, in a run of checks at `times`, fires.
pub open spec fn slot_fires_at(s: PendingSlot, timeout: u64, times: Seq<Timestamp>, k: int) -> bool {
    check_step(slot_after(s, timeout, times.take(k)), timeout, times[k]).1
}

/// Clock readings that never go back.
pub open spec fn non_decreasing(times: Seq<Timestamp>) -> bool {
    forall|i: int, j: int| 0 <= i <= j < times.len() ==> times[i].nanos <= times[j].nanos
}

/// The slot of a request just sent at `t0`: a new episode.
pub open spec fn fresh_episode(t0: Timestamp) -> PendingSlot {
    PendingSlot { sent_at: Some(t0), reported: false }
}

proof fn lemma_fresh_slot_after(t0: Timestamp, timeout: u64, times: Seq<Timestamp>, n: int)
    requires
        non_decreasing(times),
        0 <= n <= times.len(),
    ensures
        slot_after(fresh_episode(t0), timeout, times.take(n)) == (PendingSlot {
            sent_at: Some(t0),
            reported: n > 0 && expired(t0, timeout, times[n - 1]),
        }),
    decreases n,
{
    if n > 0 {
        lemma_fresh_slot_after(t0, timeout, times, n - 1);
        assert(times.take(n).drop_last() == times.take(n - 1));
        assert(times.take(n).last() == times[n - 1]);
    }
}

/// Over a run of checks at clock readings that never go back, with no
/// response and no resend, a request sent at `t0` is reported exactly once:
/// by the first check at which its timeout has elapsed. Earlier checks and
/// every later one report nothing.
pub proof fn lemma_episode_reported_once(t0: Timestamp, timeout: u64, times: Seq<Timestamp>)
    requires
        non_decreasing(times),
    ensures
        forall|k: int|
            0 <= k < times.len() ==> (#[trigger] slot_fires_at(fresh_episode(t0), timeout, times, k)
                <==> expired(t0, timeout, times[k]) && (k == 0 || !expired(
                t0,
                timeout,
                times[k - 1],
            ))),
{
    assert forall|k: int| 0 <= k < times.len() implies (#[trigger] slot_fires_at(
        fresh_episode(t0),
        timeout,
        times,
        k,
    ) <==> expired(t0, timeout, times[k]) && (k == 0 || !expired(t0, timeout, times[k - 1]))) by {
        lemma_fresh_slot_after(t0, timeout, times, k);
    }
}

/// Which tracked requests newly timed out during one check.
#[derive(Debug, Clone, Copy, PartialEq, Eq, Structural)]
pub struct TimeoutReport {
    /// `commit(serial)` got no `done` within [`COMMIT_DONE_TIMEOUT_NS`].
    pub commit_done: bool,
    /// `grab_keyboard` got no `keymap` within [`GRAB_KEYMAP_TIMEOUT_NS`].
    pub grab_keymap: bool,
    /// An anchor probe got no rectangle within [`PROBE_RECT_TIMEOUT_NS`].
    pub probe_rect: bool,
}

/// Tracks the three protocol request/response pairs the host relies on.
#[derive(Debug, Clone, Copy, PartialEq, Eq, Structural)]
pub struct PendingRequestTracker {
    pub commit_done: PendingSlot,
    pub grab_keymap: PendingSlot,
    pub probe_rect: PendingSlot,
}

/// The smaller of two optional values, ignoring absent ones.
pub open spec fn min_present(a: Option<int>, b: Option<int>) -> Option<int> {
    match (a, b) {
        (None, _) => b,
        (_, None) => a,
        (Some(x), Some(y)) => Some(if x <= y { x } else { y }),
    }
}

/// The remaining-milliseconds value of one slot, if it is in flight.
pub open spec fn slot_remaining(s: PendingSlot, timeout: u64, now: Timestamp) -> Option<int> {
    match s.sent_at {
        None => None,
        Some(since) => Some(remaining_ms_spec(since, timeout, now)),
    }
}

/// An optional `i32` as an optional integer.
pub open spec fn opt_int(o: Option<i32>) -> Option<int> {
    match o {
        None => None,
        Some(x) => Some(x as int),
    }
}

fn min_option(a: Option<i32>, b: Option<i32>) -> (m: Option<i32>)
    ensures
        opt_int(m) == min_present(opt_int(a), opt_int(b)),
{
    match (a, b) {
        (None, _) => b,
        (_, None) => a,
        (Some(x), Some(y)) => Some(if x <= y { x } else { y }),
    }
}

/// One `check_timeouts` of a tracker: the tracker afterwards and its report.
pub open spec fn tracker_check(t: PendingRequestTracker, now: Timestamp) -> (
    PendingRequestTracker,
    TimeoutReport,
) {
    let c = check_step(t.commit_done, COMMIT_DONE_TIMEOUT_NS, now);
    let g = check_step(t.grab_keymap, GRAB_KEYMAP_TIMEOUT_NS, now);
    let p = check_step(t.probe_rect, PROBE_RECT_TIMEOUT_NS, now);
    (
        PendingRequestTracker { commit_done: c.0, grab_keymap: g.0, probe_rect: p.0 },
        TimeoutReport { commit_done: c.1, grab_keymap: g.1, probe_rect: p.1 },
    )
}

/// The tracker after a check at each of `times`, in order.
pub open spec fn tracker_after(t: PendingRequestTracker, times: Seq<Timestamp>) -> PendingRequestTracker
    decreases times.len(),
{
    if times.len() == 0 {
        t
    } else {
        tracker_check(tracker_after(t, times.drop_last()), times.last()).0
    }
}

/// The report of the check at `times[k]` in a run of checks at `times`.
pub open spec fn tracker_report_at(t: PendingRequestTracker, times: Seq<Timestamp>, k: int) -> TimeoutReport {
    tracker_check(tracker_after(t, times.take(k)), times[k]).1
}

/// The tracker with a `commit(serial)` just sent at `now`.
pub open spec fn commit_sent(t: PendingRequestTracker, now: Timestamp) -> PendingRequestTracker {
    PendingRequestTracker { commit_done: fresh_episode(now), ..t }
}

/// The tracker with `grab_keyboard` just sent at `now`.
pub open spec fn grab_sent(t: PendingRequestTracker, now: Timestamp) -> PendingRequestTracker {
    PendingRequestTracker { grab_keymap: fresh_episode(now), ..t }
}

/// The tracker with an anchor probe just sent at `now`.
pub open spec fn probe_sent(t: PendingRequestTracker, now: Timestamp) -> PendingRequestTracker {
    PendingRequestTracker { probe_rect: fresh_episode(now), ..t }
}

proof fn lemma_tracker_after_slots(t: PendingRequestTracker, times: Seq<Timestamp>)
    ensures
        tracker_after(t, times).commit_done == slot_after(t.commit_done, COMMIT_DONE_TIMEOUT_NS, times),
        tracker_after(t, times).grab_keymap == slot_after(t.grab_keymap, GRAB_KEYMAP_TIMEOUT_NS, times),
        tracker_after(t, times).probe_rect == slot_after(t.probe_rect, PROBE_RECT_TIMEOUT_NS, times),
    decreases times.len(),
{
    if times.len() > 0 {
        lemma_tracker_after_slots(t, times.drop_last());
    }
}

proof fn lemma_tracker_reports_are_slot_reports(t: PendingRequestTracker, times: Seq<Timestamp>, k: int)
    requires
        0 <= k < times.len(),
    ensures
        tracker_report_at(t, times, k).commit_done == slot_fires_at(t.commit_done, COMMIT_DONE_TIMEOUT_NS, times, k),
        tracker_report_at(t, times, k).grab_keymap == slot_fires_at(t.grab_keymap, GRAB_KEYMAP_TIMEOUT_NS, times, k),
        tracker_report_at(t, times, k).probe_rect == slot_fires_at(t.probe_rect, PROBE_RECT_TIMEOUT_NS, times, k),
{
    lemma_tracker_after_slots(t, times.take(k));
}

/// A `commit(serial)` sent at `t1` (also a resend, whatever the earlier
/// episode had reported) starts a new episode: over a following run of checks
/// at clock readings that never go back, with no `done` and no resend, the
/// commit is reported exactly once, by the first check at least 2 s after
/// `t1`. When no other request is in flight, the loop's next deadline is the
/// full 2 s.
pub proof fn lemma_commit_resend_restarts_episode(
    t: PendingRequestTracker,
    t1: Timestamp,
    times: Seq<Timestamp>,
)
    requires
        non_decreasing(times),
    ensures
        forall|k: int|
            0 <= k < times.len() ==> (#[trigger] tracker_report_at(commit_sent(t, t1), times, k).commit_done
                <==> expired(t1, COMMIT_DONE_TIMEOUT_NS, times[k]) && (k == 0 || !expired(
                t1,
                COMMIT_DONE_TIMEOUT_NS,
                times[k - 1],
            ))),
        t.grab_keymap.sent_at is None && t.probe_rect.sent_at is None ==> min_present(
            min_present(
                slot_remaining(commit_sent(t, t1).commit_done, COMMIT_DONE_TIMEOUT_NS, t1),
                slot_remaining(commit_sent(t, t1).grab_keymap, GRAB_KEYMAP_TIMEOUT_NS, t1),
            ),
            slot_remaining(commit_sent(t, t1).probe_rect, PROBE_RECT_TIMEOUT_NS, t1),
        ) == Some(2000int),
{
    lemma_episode_reported_once(t1, COMMIT_DONE_TIMEOUT_NS, times);
    assert forall|k: int| 0 <= k < times.len() implies (#[trigger] tracker_report_at(
        commit_sent(t, t1),
        times,
        k,
    ).commit_done <==> expired(t1, COMMIT_DONE_TIMEOUT_NS, times[k]) && (k == 0 || !expired(
        t1,
        COMMIT_DONE_TIMEOUT_NS,
        times[k - 1],
    ))) by {
        lemma_tracker_reports_are_slot_reports(commit_sent(t, t1), times, k);
    }
}

/// A `grab_keyboard` sent at `t1` starts a new episode, reported exactly
/// once by the first check at least 3 s later.
pub proof fn lemma_grab_episode_reported_once(
    t: PendingRequestTracker,
    t1: Timestamp,
    times: Seq<Timestamp>,
)
    requires
        non_decreasing(times),
    ensures
        forall|k: int|
            0 <= k < times.len() ==> (#[trigger] tracker_report_at(grab_sent(t, t1), times, k).grab_keymap
                <==> expired(t1, GRAB_KEYMAP_TIMEOUT_NS, times[k]) && (k == 0 || !expired(
                t1,
                GRAB_KEYMAP_TIMEOUT_NS,
                times[k - 1],
            ))),
{
    lemma_episode_reported_once(t1, GRAB_KEYMAP_TIMEOUT_NS, times);
    assert forall|k: int| 0 <= k < times.len() implies (#[trigger] tracker_report_at(
        grab_sent(t, t1),
        times,
        k,
    ).grab_keymap <==> expired(t1, GRAB_KEYMAP_TIMEOUT_NS, times[k]) && (k == 0 || !expired(
        t1,
        GRAB_KEYMAP_TIMEOUT_NS,
        times[k - 1],
    ))) by {
        lemma_tracker_reports_are_slot_reports(grab_sent(t, t1), times, k);
    }
}

/// An anchor probe sent at `t1` starts a new episode, reported exactly once
/// by the first check at least 1.5 s later.
pub proof fn lemma_probe_episode_reported_once(
    t: PendingRequestTracker,
    t1: Timestamp,
    times: Seq<Timestamp>,
)
    requires
        non_decreasing(times),
    ensures
        forall|k: int|
            0 <= k < times.len() ==> (#[trigger] tracker_report_at(probe_sent(t, t1), times, k).probe_rect
                <==> expired(t1, PROBE_RECT_TIMEOUT_NS, times[k]) && (k == 0 || !expired(
                t1,
                PROBE_RECT_TIMEOUT_NS,
                times[k - 1],
            ))),
{
    lemma_episode_reported_once(t1, PROBE_RECT_TIMEOUT_NS, times);
    assert forall|k: int| 0 <= k < times.len() implies (#[trigger] tracker_report_at(
        probe_sent(t, t1),
        times,
        k,
    ).probe_rect <==> expired(t1, PROBE_RECT_TIMEOUT_NS, times[k]) && (k == 0 || !expired(
        t1,
        PROBE_RECT_TIMEOUT_NS,
        times[k - 1],
    ))) by {
        lemma_tracker_reports_are_slot_reports(probe_sent(t, t1), times, k);
    }
}

impl PendingRequestTracker {
    /// A tracker with nothing in flight.
    pub fn new() -> (t: PendingRequestTracker)
        ensures
            t.commit_done.sent_at is None && !t.commit_done.reported,
            t.grab_keymap.sent_at is None && !t.grab_keymap.reported,
            t.probe_rect.sent_at is None && !t.probe_rect.reported,
    {
        PendingRequestTracker {
            commit_done: PendingSlot::new(),
            grab_keymap: PendingSlot::new(),
            probe_rect: PendingSlot::new(),
        }
    }

    /// A `commit(serial)` was just sent; expect a `done` event.
    pub fn note_commit_sent(&mut self, now: Timestamp)
        ensures
            *final(self) == commit_sent(*old(self), now),
            final(self).commit_done == (PendingSlot { sent_at: Some(now), reported: false }),
            final(self).grab_keymap == old(self).grab_keymap,
            final(self).probe_rect == old(self).probe_rect,
    {
        self.commit_done.note_sent(now);
    }

    /// A `done` event arrived, resolving any outstanding commit. Commits fire
    /// on every candidate update, so the measured latency is discarded.
    pub fn note_done_received(&mut self, now: Timestamp)
        ensures
            final(self).commit_done == (PendingSlot { sent_at: None, reported: false }),
            final(self).grab_keymap == old(self).grab_keymap,
            final(self).probe_rect == old(self).probe_rect,
    {
        let _ = self.commit_done.note_resolved(now);
    }

    /// `grab_keyboard` was just sent; expect a `keymap` event.
    pub fn note_grab_sent(&mut self, now: Timestamp)
        ensures
            *final(self) == grab_sent(*old(self), now),
            final(self).grab_keymap == (PendingSlot { sent_at: Some(now), reported: false }),
            final(self).commit_done == old(self).commit_done,
            final(self).probe_rect == old(self).probe_rect,
    {
        self.grab_keymap.note_sent(now);
    }

    /// A `keymap` event arrived, resolving any outstanding grab. Returns the
    /// measured grab→keymap latency (for a debug line), if a grab was
    /// outstanding.
    pub fn note_keymap_received(&mut self, now: Timestamp) -> (latency: Option<Span>)
        ensures
            final(self).grab_keymap == (PendingSlot { sent_at: None, reported: false }),
            final(self).commit_done == old(self).commit_done,
            final(self).probe_rect == old(self).probe_rect,
            old(self).grab_keymap.sent_at is None ==> latency is None,
            old(self).grab_keymap.sent_at matches Some(since) ==> latency == Some(Span {
                nanos: if now.nanos >= since.nanos { (now.nanos - since.nanos) as u64 } else { 0 },
            }),
    {
        self.grab_keymap.note_resolved(now)
    }

    /// An anchor probe was just sent; expect a `text_input_rectangle` event.
    pub fn note_probe_sent(&mut self, now: Timestamp)
        ensures
            *final(self) == probe_sent(*old(self), now),
            final(self).probe_rect == (PendingSlot { sent_at: Some(now), reported: false }),
            final(self).commit_done == old(self).commit_done,
            final(self).grab_keymap == old(self).grab_keymap,
    {
        self.probe_rect.note_sent(now);
    }

    /// A `text_input_rectangle` event arrived, resolving any outstanding
    /// probe. Returns the measured probe→rectangle latency, if a probe was
    /// outstanding.
    pub fn note_rect_received(&mut self, now: Timestamp) -> (latency: Option<Span>)
        ensures
            final(self).probe_rect == (PendingSlot { sent_at: None, reported: false }),
            final(self).commit_done == old(self).commit_done,
            final(self).grab_keymap == old(self).grab_keymap,
            old(self).probe_rect.sent_at is None ==> latency is None,
            old(self).probe_rect.sent_at matches Some(since) ==> latency == Some(Span {
                nanos: if now.nanos >= since.nanos { (now.nanos - since.nanos) as u64 } else { 0 },
            }),
    {
        self.probe_rect.note_resolved(now)
    }

    /// Earliest in-flight deadline in ms, for the event-loop poll reducer.
    /// `None` when no request is pending.
    pub fn min_deadline_ms(&self, now: Timestamp) -> (ms: Option<i32>)
        ensures
            opt_int(ms) == min_present(
                min_present(
                    slot_remaining(self.commit_done, COMMIT_DONE_TIMEOUT_NS, now),
                    slot_remaining(self.grab_keymap, GRAB_KEYMAP_TIMEOUT_NS, now),
                ),
                slot_remaining(self.probe_rect, PROBE_RECT_TIMEOUT_NS, now),
            ),
    {
        let a = self.commit_done.deadline_remaining_ms(COMMIT_DONE_TIMEOUT_NS, now);
        let b = self.grab_keymap.deadline_remaining_ms(GRAB_KEYMAP_TIMEOUT_NS, now);
        let c = self.probe_rect.deadline_remaining_ms(PROBE_RECT_TIMEOUT_NS, now);
        let ab = min_option(a, b);
        min_option(ab, c)
    }

    /// Report each request that newly timed out; each stalled episode is
    /// reported once. Call this every main-loop tick.
    pub fn check_timeouts(&mut self, now: Timestamp) -> (report: TimeoutReport)
        ensures
            (*final(self), report) == tracker_check(*old(self), now),
            report.commit_done == (old(self).commit_done.sent_at matches Some(since)
                && !old(self).commit_done.reported && expired(since, COMMIT_DONE_TIMEOUT_NS, now)),
            report.grab_keymap == (old(self).grab_keymap.sent_at matches Some(since)
                && !old(self).grab_keymap.reported && expired(since, GRAB_KEYMAP_TIMEOUT_NS, now)),
            report.probe_rect == (old(self).probe_rect.sent_at matches Some(since)
                && !old(self).probe_rect.reported && expired(since, PROBE_RECT_TIMEOUT_NS, now)),
            final(self).commit_done.sent_at == old(self).commit_done.sent_at,
            final(self).grab_keymap.sent_at == old(self).grab_keymap.sent_at,
            final(self).probe_rect.sent_at == old(self).probe_rect.sent_at,
            final(self).commit_done.reported == (old(self).commit_done.reported
                || report.commit_done),
            final(self).grab_keymap.reported == (old(self).grab_keymap.reported
                || report.grab_keymap),
            final(self).probe_rect.reported == (old(self).probe_rect.reported
                || report.probe_rect),
    {
        let commit_done = self.commit_done.check_timed_out(COMMIT_DONE_TIMEOUT_NS, now);
        let grab_keymap = self.grab_keymap.check_timed_out(GRAB_KEYMAP_TIMEOUT_NS, now);
        let probe_rect = self.probe_rect.check_timed_out(PROBE_RECT_TIMEOUT_NS, now);
        TimeoutReport { commit_done, grab_keymap, probe_rect }
    }
}

} // verus!
