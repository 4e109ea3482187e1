use typio_host::panel_driver::{CandidatePanelState, FlushStep, PresentStep};
use typio_host::panel_scheduler::PanelScheduleState;

fn dirty() -> CandidatePanelState {
    let mut s = CandidatePanelState::new();
    s.schedule = PanelScheduleState::Dirty;
    s
}

#[test]
fn nothing_pending_means_idle() {
    let mut s = CandidatePanelState::new();
    assert_eq!(s.triage(true, true, 3, false), FlushStep::Idle);
}

#[test]
fn unfocused_redraws_are_discarded() {
    let mut s = dirty();
    assert_eq!(s.triage(false, true, 3, false), FlushStep::Discarded);
    assert_eq!(s.schedule, PanelScheduleState::Idle);
    let mut s = dirty();
    assert_eq!(s.triage(true, false, 3, false), FlushStep::Discarded);
}

#[test]
fn empty_candidates_hide_unless_an_overlay_owns_the_surface() {
    let mut s = dirty();
    s.record.mark_presented(4);
    assert_eq!(s.triage(true, true, 0, false), FlushStep::Hide);
    assert_eq!(s.schedule, PanelScheduleState::Idle);
    assert!(!s.record.is_current(4));

    let mut s = dirty();
    s.record.mark_presented(4);
    assert_eq!(s.triage(true, true, 0, true), FlushStep::LeftToOverlay);
    assert!(s.record.is_current(4));
}

#[test]
fn a_presented_snapshot_is_not_redrawn_until_the_owner_changes() {
    let mut s = dirty();
    assert_eq!(s.triage(true, true, 2, false), FlushStep::Claim);
    assert_eq!(s.present_after_claim(false, 9, false), PresentStep::AwaitSurface);
    assert_eq!(s.schedule, PanelScheduleState::Dirty);
    assert_eq!(s.present_after_claim(false, 9, true), PresentStep::Draw);
    s.finish_draw(9, false);
    assert_eq!(s.schedule, PanelScheduleState::Dirty);
    s.finish_draw(9, true);
    assert_eq!(s.schedule, PanelScheduleState::Idle);

    s.schedule = PanelScheduleState::Dirty;
    assert_eq!(s.triage(true, true, 2, false), FlushStep::Claim);
    assert_eq!(s.present_after_claim(false, 9, true), PresentStep::AlreadyPresented);
    assert_eq!(s.schedule, PanelScheduleState::Idle);

    s.schedule = PanelScheduleState::Dirty;
    assert_eq!(s.present_after_claim(true, 9, true), PresentStep::Draw);
}
