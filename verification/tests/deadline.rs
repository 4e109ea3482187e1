use typio_host::engine::deadline::{
    plan_wait, wait_step, WaitPlan, WaitStep, MAX_POLL_WAIT_MS, POLL_NVAL,
};
use typio_host::time::Timestamp;

#[test]
fn wait_is_planned_in_whole_milliseconds_until_the_deadline() {
    let deadline = Timestamp::from_nanos(50_000_000);
    assert_eq!(plan_wait(deadline, Timestamp::from_nanos(0)), WaitPlan::Poll(50));
    assert_eq!(plan_wait(deadline, Timestamp::from_nanos(49_999_999)), WaitPlan::Poll(1));
    assert_eq!(plan_wait(deadline, Timestamp::from_nanos(49_500_000)), WaitPlan::Poll(1));
    assert_eq!(plan_wait(deadline, Timestamp::from_nanos(50_000_000)), WaitPlan::Expired);
    assert_eq!(plan_wait(deadline, Timestamp::from_nanos(60_000_000)), WaitPlan::Expired);
}

#[test]
fn very_long_waits_are_capped_at_the_poll_limit() {
    let deadline = Timestamp::from_nanos(u64::MAX);
    assert_eq!(plan_wait(deadline, Timestamp::from_nanos(0)), WaitPlan::Poll(MAX_POLL_WAIT_MS));
}

#[test]
fn poll_outcomes_map_to_channel_steps() {
    assert_eq!(wait_step(1, 0x1, false), WaitStep::Ready);
    assert_eq!(wait_step(1, POLL_NVAL, false), WaitStep::Invalid);
    assert_eq!(wait_step(0, 0, false), WaitStep::TimedOut);
    assert_eq!(wait_step(-1, 0, true), WaitStep::Retry);
    assert_eq!(wait_step(-1, 0, false), WaitStep::Failed);
}
