//! Convergence of the candidate panel onto the latest composition snapshot,
//! once per loop step.
//!
//! This is the policy side of the panel's presentation boundary: given the
//! pending redraw, focus, and the snapshot, it decides whether to discard,
//! hide, skip an already-presented snapshot, wait for the surface, or draw,
//! and keeps the redraw schedule and the presentation record in step. The
//! caller performs the surface work each decision names.
use vstd::prelude::*;

use crate::panel_present_gate::{PresentationModel, PresentationRecord};
use crate::panel_scheduler::PanelScheduleState;

verus! {

/// Redraw schedule and presentation record of the candidate panel.
pub struct CandidatePanelState {
    pub schedule: PanelScheduleState,
    pub record: PresentationRecord,
}

/// What to do with a pending redraw before any surface work.
#[derive(Debug, Clone, Copy, PartialEq, Eq, Structural)]
pub enum FlushStep {
    /// Nothing is pending.
    Idle,
    /// No focused input context: the pending state can never be shown and
    /// was dropped.
    Discarded,
    /// No candidates, and a status overlay owns the shared surface: the
    /// candidate path has nothing to do and must not detach the overlay.
    LeftToOverlay,
    /// No candidates: hide the candidate panel and detach its buffer.
    Hide,
    /// Candidates to show: claim the surface for the candidate panel, then
    /// continue with [`CandidatePanelState::present_after_claim`].
    Claim,
}

/// What to do once the candidate panel owns the surface.
#[derive(Debug, Clone, Copy, PartialEq, Eq, Structural)]
pub enum PresentStep {
    /// This snapshot is already on screen in the current generation.
    AlreadyPresented,
    /// The surface does not exist yet; keep the redraw pending.
    AwaitSurface,
    /// Draw and submit this snapshot, then report with [`finish_draw`].
    Draw,
}

/// The decision on a pending redraw.
pub open spec fn triage_spec(
    schedule: PanelScheduleState,
    focused: bool,
    has_context: bool,
    candidate_count: usize,
    overlay_owns_surface: bool,
) -> FlushStep {
    if schedule != PanelScheduleState::Dirty {
        FlushStep::Idle
    } else if !focused || !has_context {
        FlushStep::Discarded
    } else if candidate_count == 0 {
        if overlay_owns_surface {
            FlushStep::LeftToOverlay
        } else {
            FlushStep::Hide
        }
    } else {
        FlushStep::Claim
    }
}

/// The presentation step after the claim, on the record as the claim left it.
pub open spec fn present_spec(record: PresentationModel, seq: u64, surface_exists: bool) -> PresentStep {
    if record.current(seq) {
        PresentStep::AlreadyPresented
    } else if !surface_exists {
        PresentStep::AwaitSurface
    } else {
        PresentStep::Draw
    }
}

/// The presentation record after a claim: a change of owner invalidates it.
pub open spec fn claimed_record(record: PresentationModel, owner_changed: bool) -> PresentationModel {
    if owner_changed {
        record.invalidated()
    } else {
        record
    }
}

impl CandidatePanelState {
    /// A panel with nothing pending and nothing presented.
    pub fn new() -> (s: CandidatePanelState)
        ensures
            s.schedule == PanelScheduleState::Idle,
            s.record@.generation == 0,
            s.record@.presented is None,
    {
        CandidatePanelState { schedule: PanelScheduleState::Idle, record: PresentationRecord::new() }
    }

    /// Decide what a pending redraw needs. Every outcome but `Claim` settles
    /// the redraw (`Idle` had none); hiding also invalidates the record, so
    /// the next show presents afresh.
    pub fn triage(
        &mut self,
        focused: bool,
        has_context: bool,
        candidate_count: usize,
        overlay_owns_surface: bool,
    ) -> (g: FlushStep)
        ensures
            g == triage_spec(
                old(self).schedule,
                focused,
                has_context,
                candidate_count,
                overlay_owns_surface,
            ),
            g == FlushStep::Claim ==> final(self).schedule == PanelScheduleState::Dirty,
            g != FlushStep::Claim ==> final(self).schedule == PanelScheduleState::Idle,
            g == FlushStep::Hide ==> final(self).record@ == old(self).record@.invalidated(),
            g != FlushStep::Hide ==> final(self).record@ == old(self).record@,
    {
        if self.schedule != PanelScheduleState::Dirty {
            return FlushStep::Idle;
        }
        if !focused || !has_context {
            self.schedule = PanelScheduleState::Idle;
            return FlushStep::Discarded;
        }
        if candidate_count == 0 {
            if overlay_owns_surface {
                self.schedule = PanelScheduleState::Idle;
                return FlushStep::LeftToOverlay;
            }
            self.record.invalidate();
            self.schedule = PanelScheduleState::Idle;
            return FlushStep::Hide;
        }
        FlushStep::Claim
    }

    /// After claiming the surface (which changed its visible owner iff
    /// `owner_changed`), decide how to present snapshot `composition_seq`.
    /// An already-presented snapshot settles the redraw without drawing.
    pub fn present_after_claim(
        &mut self,
        owner_changed: bool,
        composition_seq: u64,
        surface_exists: bool,
    ) -> (step: PresentStep)
        ensures
            final(self).record@ == claimed_record(old(self).record@, owner_changed),
            step == present_spec(final(self).record@, composition_seq, surface_exists),
            step == PresentStep::AlreadyPresented ==> final(self).schedule
                == PanelScheduleState::Idle,
            step != PresentStep::AlreadyPresented ==> final(self).schedule == old(self).schedule,
    {
        if owner_changed {
            self.record.invalidate();
        }
        if self.record.is_current(composition_seq) {
            self.schedule = PanelScheduleState::Idle;
            return PresentStep::AlreadyPresented;
        }
        if !surface_exists {
            return PresentStep::AwaitSurface;
        }
        PresentStep::Draw
    }

    /// Report a draw of `composition_seq`: a submitted frame is recorded and
    /// settles the redraw; a dropped one leaves the redraw pending, so a
    /// buffer release or the next input retries the latest snapshot.
    pub fn finish_draw(&mut self, composition_seq: u64, drawn: bool)
        ensures
            drawn ==> final(self).record@ == old(self).record@.marked(composition_seq),
            drawn ==> final(self).schedule == PanelScheduleState::Idle,
            !drawn ==> final(self).record@ == old(self).record@,
            !drawn ==> final(self).schedule == old(self).schedule,
    {
        if drawn {
            self.record.mark_presented(composition_seq);
            self.schedule = PanelScheduleState::Idle;
        }
    }
}

/// A snapshot that was drawn is not drawn again while the surface keeps its
/// owner: presenting the same snapshot next settles without a draw, whether
/// or not the surface still exists; a change of owner forces a redraw.
pub proof fn lemma_drawn_snapshot_not_redrawn(
    record: PresentationModel,
    seq: u64,
    surface_exists: bool,
)
    ensures
        present_spec(claimed_record(record.marked(seq), false), seq, surface_exists)
            == PresentStep::AlreadyPresented,
        surface_exists ==> present_spec(claimed_record(record.marked(seq), true), seq, true)
            == PresentStep::Draw,
{
}

/// A pending redraw without a focused input context is always dropped, and a
/// redraw is only ever claimed for a non-empty candidate list.
pub proof fn lemma_triage_never_claims_unpresentable(
    focused: bool,
    has_context: bool,
    candidate_count: usize,
    overlay_owns_surface: bool,
)
    ensures
        !(focused && has_context) ==> triage_spec(
            PanelScheduleState::Dirty,
            focused,
            has_context,
            candidate_count,
            overlay_owns_surface,
        ) == FlushStep::Discarded,
        triage_spec(PanelScheduleState::Dirty, focused, has_context, candidate_count, overlay_owns_surface)
            == FlushStep::Claim ==> candidate_count > 0 && focused && has_context,
        triage_spec(PanelScheduleState::Idle, focused, has_context, candidate_count, overlay_owns_surface)
            == FlushStep::Idle,
{
}

/// A pending redraw of a focused context is claimed and drawn whenever
/// there is at least one candidate, whatever owns the surface; it is hidden
/// (or left to the overlay) only when there are none.
pub proof fn lemma_triage_claims_every_candidate_list(
    candidate_count: usize,
    overlay_owns_surface: bool,
)
    ensures
        candidate_count > 0 ==> triage_spec(
            PanelScheduleState::Dirty,
            true,
            true,
            candidate_count,
            overlay_owns_surface,
        ) == FlushStep::Claim,
        candidate_count == 0 ==> triage_spec(
            PanelScheduleState::Dirty,
            true,
            true,
            candidate_count,
            overlay_owns_surface,
        ) == (if overlay_owns_surface {
            FlushStep::LeftToOverlay
        } else {
            FlushStep::Hide
        }),
{
}

} // verus!
