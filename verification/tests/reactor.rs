use typio_host::reactor::{PollSource, PollTimeout, ReadySet, POLL_ERR, POLL_HUP, POLL_IN, SOURCE_COUNT};

#[test]
fn timeout_is_unbounded_without_deadlines() {
    assert_eq!(PollTimeout::default().as_millis(), -1);
}

#[test]
fn timeout_reducer_keeps_earliest_nonnegative_deadline() {
    let mut timeout = PollTimeout::default();
    timeout.reduce(20);
    timeout.reduce(5);
    timeout.reduce(12);
    assert_eq!(timeout.as_millis(), 5);

    timeout.reduce(-4);
    assert_eq!(timeout.as_millis(), 0);
}

#[test]
fn reduction_is_independent_of_offer_order() {
    let mut a = PollTimeout::new();
    a.reduce(30);
    a.reduce(7);
    let mut b = PollTimeout::new();
    b.reduce(7);
    b.reduce(30);
    assert_eq!(a.as_millis(), b.as_millis());
    assert_eq!(a.as_millis(), 7);
}

#[test]
fn ready_set_uses_named_sources() {
    assert_eq!(POLL_IN, libc::POLLIN);
    assert_eq!(POLL_ERR, libc::POLLERR);
    assert_eq!(POLL_HUP, libc::POLLHUP);
    let mut revents = [0; SOURCE_COUNT];
    revents[PollSource::VoiceSession.index()] = libc::POLLIN;
    revents[PollSource::Wayland.index()] = libc::POLLHUP;
    let ready = ReadySet { revents };

    assert!(ready.readable(PollSource::VoiceSession));
    assert!(!ready.readable(PollSource::ConfigTimer));
    assert!(ready.disconnected(PollSource::Wayland));
}

#[test]
fn timeout_is_the_least_offer_in_any_order_and_never_rises() {
    let offers = [40, -5, 17, 300];
    let mut forward = PollTimeout::default();
    for ms in offers {
        forward.reduce(ms);
    }
    let mut backward = PollTimeout::default();
    for ms in offers.iter().rev() {
        backward.reduce(*ms);
    }
    assert_eq!(forward.as_millis(), 0);
    assert_eq!(backward.as_millis(), 0);

    let mut t = PollTimeout::default();
    t.reduce(50);
    t.reduce(80);
    assert_eq!(t.as_millis(), 50);
    t.reduce(20);
    assert_eq!(t.as_millis(), 20);
}
