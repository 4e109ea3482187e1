//! Present pacing policy for the candidate panel.
//!
//! `wl_surface.frame` callbacks are useful refresh hints, but input-method
//! popup surfaces can stop receiving them when the compositor occludes,
//! deprioritizes, or otherwise loses track of the popup. This module keeps the
//! callback in the pacing loop without letting a missing callback freeze
//! candidate updates.
use vstd::prelude::*;

use crate::time::{Span, Timestamp, millis_of};

verus! {

/// The longest a candidate update may wait for an outstanding
/// `wl_surface.frame` callback before the host presents the latest coalesced
/// state anyway (100 ms, in nanoseconds).
///
/// A healthy compositor delivers the callback at refresh rate (~16 ms), well
/// below this ceiling; a compositor that drops callbacks is paced at this
/// conservative cadence instead of being flooded with attach/commit requests.
pub const PANEL_FRAME_CALLBACK_SOFT_LIMIT_NS: u64 = 100_000_000;

/// Diagnostic threshold for an uninterrupted period with no frame callback
/// (200 ms, in nanoseconds). Crossing it does not gate rendering; it only
/// makes a compositor callback stall visible in logs.
pub const PANEL_FRAME_CALLBACK_STALL_WARN_NS: u64 = 200_000_000;

/// Whether the panel may present this tick.
#[derive(Debug, Clone, Copy, PartialEq, Eq, Structural)]
pub enum PresentDecision {
    /// Present now.
    Present,
    /// Wait until the deadline unless a frame callback arrives earlier.
    WaitUntil(Timestamp),
}

/// Tracks which candidate-panel snapshot has already reached `present`.
///
/// Separate from the frame-callback gate: a frame callback answers "should
/// the compositor pace the next present?"; this record answers "is there any
/// newer panel content to present?".
#[derive(Debug, Clone, Copy, PartialEq, Eq)]
pub struct PresentationRecord {
    generation: u64,
    presented: Option<(u64, u64)>,
}

/// Abstract state of a [`PresentationRecord`]: the current generation and the
/// `(generation, composition_seq)` pair last presented, if any.
pub struct PresentationModel {
    pub generation: u64,
    pub presented: Option<(u64, u64)>,
}

impl PresentationModel {
    /// The record after an invalidation: a new generation, nothing presented.
    pub open spec fn invalidated(self) -> PresentationModel {
        PresentationModel {
            generation: (if self.generation == u64::MAX { 0 } else { self.generation + 1 }) as u64,
            presented: None,
        }
    }

    /// The record after `seq` was presented in the current generation.
    pub open spec fn marked(self, seq: u64) -> PresentationModel {
        PresentationModel { generation: self.generation, presented: Some((self.generation, seq)) }
    }

    /// Whether `seq` was already presented in the current generation.
    pub open spec fn current(self, seq: u64) -> bool {
        self.presented == Some((self.generation, seq))
    }
}

impl View for PresentationRecord {
    type V = PresentationModel;

    closed spec fn view(&self) -> PresentationModel {
        PresentationModel { generation: self.generation, presented: self.presented }
    }
}

impl PresentationRecord {
    /// A record in generation zero with nothing presented.
    pub fn new() -> (r: PresentationRecord)
        ensures
            r@.generation == 0,
            r@.presented is None,
    {
        PresentationRecord { generation: 0, presented: None }
    }

    /// Invalidate the last-presented marker after a non-composition change
    /// that still requires a redraw: scale change, hide/show transition, theme
    /// reload, or a different popup owner borrowing the surface.
    pub fn invalidate(&mut self)
        ensures
            final(self)@ == old(self)@.invalidated(),
    {
        self.generation = self.generation.wrapping_add(1);
        self.presented = None;
    }

    /// Mark `composition_seq` as successfully submitted in the current
    /// generation.
    pub fn mark_presented(&mut self, composition_seq: u64)
        ensures
            final(self)@ == old(self)@.marked(composition_seq),
    {
        self.presented = Some((self.generation, composition_seq));
    }

    /// True iff `composition_seq` was already submitted in the current
    /// generation.
    pub fn is_current(&self, composition_seq: u64) -> (current: bool)
        ensures
            current == self@.current(composition_seq),
    {
        match self.presented {
            Some((generation, seq)) => generation == self.generation && seq == composition_seq,
            None => false,
        }
    }
}

impl Default for PresentationRecord {
    /// A record in generation zero with nothing presented.
    fn default() -> (r: PresentationRecord)
        ensures
            r@.generation == 0,
            r@.presented is None,
    {
        PresentationRecord { generation: 0, presented: None }
    }
}

/// A presented snapshot stays current, whatever other snapshot is asked about,
/// until the record is invalidated or another snapshot is presented; after an
/// invalidation no snapshot is current.
pub proof fn lemma_presentation_dedupes_until_invalidated(r: PresentationModel, seq: u64, other: u64)
    ensures
        r.marked(seq).current(seq),
        r.marked(seq).current(other) <==> other == seq,
        !r.invalidated().current(other),
        !r.invalidated().marked(seq).current(other) || other == seq,
{
}

/// Decide whether an outstanding frame callback should still pace presents:
/// with no callback pending, present now; otherwise wait until the soft limit
/// after the callback was requested has elapsed.
pub fn decide(pending_since: Option<Timestamp>, now: Timestamp) -> (d: PresentDecision)
    requires
        pending_since matches Some(p) ==> p.nanos + PANEL_FRAME_CALLBACK_SOFT_LIMIT_NS <= u64::MAX,
    ensures
        d == decide_spec(pending_since, now),
        pending_since is None ==> d == PresentDecision::Present,
        pending_since matches Some(p) ==> {
            let deadline = p.nanos + PANEL_FRAME_CALLBACK_SOFT_LIMIT_NS;
            &&& now.nanos >= deadline ==> d == PresentDecision::Present
            &&& now.nanos < deadline ==> d == PresentDecision::WaitUntil(
                Timestamp { nanos: deadline as u64 },
            )
        },
{
    match pending_since {
        None => PresentDecision::Present,
        Some(pending_since) => {
            let deadline = pending_since.add(Span::from_nanos(PANEL_FRAME_CALLBACK_SOFT_LIMIT_NS));
            if now.nanos >= deadline.nanos {
                PresentDecision::Present
            } else {
                PresentDecision::WaitUntil(deadline)
            }
        },
    }
}

/// While one callback stays outstanding, every `Present` decision comes at
/// least the soft limit after the callback was requested: re-arming after a
/// present restarts the full wait, so two presents are never closer together
/// than the soft limit.
pub proof fn lemma_present_only_after_soft_limit(pending: Timestamp, now: Timestamp)
    requires
        pending.nanos + PANEL_FRAME_CALLBACK_SOFT_LIMIT_NS <= u64::MAX,
    ensures
        decide_spec(Some(pending), now) == PresentDecision::Present
            <==> now.nanos >= pending.nanos + PANEL_FRAME_CALLBACK_SOFT_LIMIT_NS,
{
}

/// Presents are never back to back: when a present at `presented_at` re-arms
/// the frame callback (at `rearmed_at`, no earlier), the next present allowed
/// without a callback comes at least the soft limit after the first.
pub proof fn lemma_no_back_to_back_presents(
    presented_at: Timestamp,
    rearmed_at: Timestamp,
    next: Timestamp,
)
    requires
        rearmed_at.nanos >= presented_at.nanos,
        rearmed_at.nanos + PANEL_FRAME_CALLBACK_SOFT_LIMIT_NS <= u64::MAX,
        decide_spec(Some(rearmed_at), next) == PresentDecision::Present,
    ensures
        next.nanos >= presented_at.nanos + PANEL_FRAME_CALLBACK_SOFT_LIMIT_NS,
{
}

/// The decision [`decide`] makes, as a value.
pub open spec fn decide_spec(pending_since: Option<Timestamp>, now: Timestamp) -> PresentDecision {
    match pending_since {
        None => PresentDecision::Present,
        Some(p) => if now.nanos >= p.nanos + PANEL_FRAME_CALLBACK_SOFT_LIMIT_NS {
            PresentDecision::Present
        } else {
            PresentDecision::WaitUntil(
                Timestamp { nanos: (p.nanos + PANEL_FRAME_CALLBACK_SOFT_LIMIT_NS) as u64 },
            )
        },
    }
}

/// The poll timeout needed to wake at `deadline`, in whole milliseconds,
/// clamped to `i32::MAX`. A deadline that has already passed gives `0`, so
/// callers poll once and immediately retry the flush without spinning.
pub fn deadline_remaining_ms(deadline: Timestamp, now: Timestamp) -> (ms: i32)
    ensures
        now.nanos >= deadline.nanos ==> ms == 0,
        now.nanos < deadline.nanos ==> {
            let remaining = millis_of(deadline.nanos - now.nanos);
            &&& remaining <= i32::MAX ==> ms == remaining
            &&& remaining > i32::MAX ==> ms == i32::MAX
        },
{
    if now.nanos >= deadline.nanos {
        return 0;
    }
    let remaining = deadline.saturating_duration_since(now).as_millis();
    if remaining > i32::MAX as u64 {
        i32::MAX
    } else {
        remaining as i32
    }
}

/// Whether an uninterrupted callback-missing episode is old enough to warn:
/// only when a callback has been missing for at least the stall threshold.
pub fn callback_stall_should_warn(missing_since: Option<Timestamp>, now: Timestamp) -> (warn: bool)
    ensures
        missing_since is None ==> !warn,
        missing_since matches Some(since) ==> (warn <==> now.nanos >= since.nanos
            && now.nanos - since.nanos >= PANEL_FRAME_CALLBACK_STALL_WARN_NS),
{
    match missing_since {
        None => false,
        Some(since) => now.saturating_duration_since(since).nanos
            >= PANEL_FRAME_CALLBACK_STALL_WARN_NS,
    }
}

} // verus!
