use typio_host::panel_present_gate::{
    callback_stall_should_warn, deadline_remaining_ms, decide, PresentDecision,
    PresentationRecord, PANEL_FRAME_CALLBACK_SOFT_LIMIT_NS, PANEL_FRAME_CALLBACK_STALL_WARN_NS,
};
use typio_host::time::{Span, Timestamp};

/// A monotonic reading far enough from zero to step back from.
fn now() -> Timestamp {
    Timestamp::from_nanos(3_600_000_000_000)
}

fn before(t: Timestamp, nanos: u64) -> Timestamp {
    Timestamp::from_nanos(t.nanos - nanos)
}

#[test]
fn absent_callback_presents_immediately() {
    assert_eq!(decide(None, now()), PresentDecision::Present);
}

#[test]
fn fresh_callback_waits_until_soft_limit() {
    let now = now();
    let pending = before(now, Span::from_millis(1).nanos);
    assert_eq!(
        decide(Some(pending), now),
        PresentDecision::WaitUntil(pending.add(Span::from_nanos(PANEL_FRAME_CALLBACK_SOFT_LIMIT_NS)))
    );
}

#[test]
fn soft_limit_allows_present_without_callback() {
    let now = now();
    let pending = before(now, PANEL_FRAME_CALLBACK_SOFT_LIMIT_NS + Span::from_millis(1).nanos);
    assert_eq!(decide(Some(pending), now), PresentDecision::Present);
}

#[test]
fn rapid_re_arm_never_allows_back_to_back_presents() {
    let soft = PANEL_FRAME_CALLBACK_SOFT_LIMIT_NS;
    let base = now();

    assert!(matches!(decide(Some(base), base), PresentDecision::WaitUntil(_)));
    assert!(matches!(
        decide(Some(base), base.add(Span::from_nanos(soft / 2))),
        PresentDecision::WaitUntil(_)
    ));
    assert_eq!(
        decide(Some(base), base.add(Span::from_nanos(soft))),
        PresentDecision::Present
    );

    let re_arm = base.add(Span::from_nanos(soft));
    assert!(matches!(
        decide(Some(re_arm), re_arm.add(Span::from_nanos(1_000))),
        PresentDecision::WaitUntil(_)
    ));
    assert_eq!(
        decide(Some(re_arm), re_arm.add(Span::from_nanos(soft))),
        PresentDecision::Present
    );
}

#[test]
fn deadline_remaining_ms_clamps_elapsed_deadline_to_zero() {
    let now = now();
    assert_eq!(
        deadline_remaining_ms(before(now, Span::from_millis(1).nanos), now),
        0
    );
    assert_eq!(
        deadline_remaining_ms(now.add(Span::from_millis(12)), now),
        12
    );
}

#[test]
fn stall_warning_uses_uninterrupted_missing_callback_age() {
    let now = now();
    assert!(!callback_stall_should_warn(None, now));
    assert!(!callback_stall_should_warn(Some(now), now));
    let stale = before(now, PANEL_FRAME_CALLBACK_STALL_WARN_NS + Span::from_millis(1).nanos);
    assert!(callback_stall_should_warn(Some(stale), now));
}

#[test]
fn presentation_record_dedupes_until_invalidated() {
    let mut record = PresentationRecord::default();
    assert!(!record.is_current(7));

    record.mark_presented(7);
    assert!(record.is_current(7));
    assert!(!record.is_current(8));

    record.invalidate();
    assert!(!record.is_current(7));

    record.mark_presented(7);
    assert!(record.is_current(7));
}

#[test]
fn deadline_remaining_ms_saturates_at_i32_max() {
    let now = now();
    let far = now.add(Span::from_nanos(u64::MAX / 4));
    assert_eq!(deadline_remaining_ms(far, now), i32::MAX);
}

#[test]
fn present_decision_waits_exactly_to_the_soft_limit() {
    let base = now();
    let just_before = base.add(Span::from_nanos(PANEL_FRAME_CALLBACK_SOFT_LIMIT_NS - 1));
    assert_eq!(
        decide(Some(base), just_before),
        PresentDecision::WaitUntil(base.add(Span::from_nanos(PANEL_FRAME_CALLBACK_SOFT_LIMIT_NS)))
    );
}
