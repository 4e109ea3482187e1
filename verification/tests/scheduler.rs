use typio_host::panel_scheduler::{cancel, complete, mark_dirty, should_flush, PanelScheduleState};

#[test]
fn mark_dirty_queues_redraw() {
    assert_eq!(
        mark_dirty(PanelScheduleState::Idle),
        PanelScheduleState::Dirty
    );
    assert_eq!(
        mark_dirty(PanelScheduleState::Dirty),
        PanelScheduleState::Dirty
    );
}

#[test]
fn complete_returns_idle() {
    assert_eq!(complete(), PanelScheduleState::Idle);
}

#[test]
fn cancel_returns_idle() {
    assert_eq!(cancel(), PanelScheduleState::Idle);
}

#[test]
fn should_flush_requires_all_conditions() {
    assert!(!should_flush(PanelScheduleState::Idle, true, true, true));
    assert!(should_flush(PanelScheduleState::Dirty, true, true, true));
    assert!(!should_flush(PanelScheduleState::Dirty, false, true, true));
    assert!(!should_flush(PanelScheduleState::Dirty, true, false, true));
    assert!(!should_flush(PanelScheduleState::Dirty, true, true, false));
}

#[test]
fn fresh_schedule_is_idle() {
    assert_eq!(PanelScheduleState::default(), PanelScheduleState::Idle);
}
