use typio_host::time::{Span, Timestamp};
use typio_host::wayland_pending::{PendingRequestTracker, TimeoutReport};

fn t(ms: u64) -> Timestamp {
    Timestamp::from_nanos(ms * 1_000_000)
}

#[test]
fn commit_timeout_is_reported_once_per_episode() {
    let mut tracker = PendingRequestTracker::new();
    tracker.note_commit_sent(t(1_000));
    assert_eq!(tracker.check_timeouts(t(2_999)), TimeoutReport { commit_done: false, grab_keymap: false, probe_rect: false });
    assert!(tracker.check_timeouts(t(3_000)).commit_done);
    assert!(!tracker.check_timeouts(t(9_000)).commit_done);
    tracker.note_done_received(t(9_100));
    tracker.note_commit_sent(t(10_000));
    assert!(tracker.check_timeouts(t(12_000)).commit_done);
}

#[test]
fn earliest_deadline_feeds_the_poll_timeout() {
    let mut tracker = PendingRequestTracker::new();
    assert_eq!(tracker.min_deadline_ms(t(0)), None);
    tracker.note_grab_sent(t(1_000));
    tracker.note_probe_sent(t(1_000));
    assert_eq!(tracker.min_deadline_ms(t(1_500)), Some(1_000));
    assert_eq!(tracker.min_deadline_ms(t(5_000)), Some(0));
}

#[test]
fn responses_report_their_latency() {
    let mut tracker = PendingRequestTracker::new();
    tracker.note_grab_sent(t(100));
    assert_eq!(tracker.note_keymap_received(t(130)), Some(Span::from_millis(30)));
    assert_eq!(tracker.note_keymap_received(t(140)), None);
    tracker.note_probe_sent(t(200));
    assert_eq!(tracker.note_rect_received(t(150)), Some(Span::zero()));
}

#[test]
fn a_resend_restarts_the_episode_for_every_slot() {
    let mut tracker = PendingRequestTracker::new();
    tracker.note_commit_sent(t(0));
    assert!(tracker.check_timeouts(t(2_500)).commit_done);
    tracker.note_commit_sent(t(3_000));
    assert_eq!(tracker.min_deadline_ms(t(3_000)), Some(2_000));
    let commits: Vec<bool> = [3_500, 4_999, 5_000, 5_001, 9_000]
        .iter()
        .map(|&ms| tracker.check_timeouts(t(ms)).commit_done)
        .collect();
    assert_eq!(commits, [false, false, true, false, false]);

    tracker.note_grab_sent(t(10_000));
    tracker.note_probe_sent(t(10_000));
    let reports: Vec<(bool, bool)> = [11_499, 11_500, 12_999, 13_000, 14_000]
        .iter()
        .map(|&ms| {
            let r = tracker.check_timeouts(t(ms));
            (r.grab_keymap, r.probe_rect)
        })
        .collect();
    assert_eq!(reports, [(false, false), (false, true), (false, false), (true, false), (false, false)]);
}
