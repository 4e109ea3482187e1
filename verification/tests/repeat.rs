use typio_host::repeat::{interval_from_rate, resolve_repeat_params, DEFAULT_DELAY_MS, DEFAULT_RATE};
use typio_host::time::Span;

#[test]
fn resolve_repeat_params_returns_none_when_rate_is_zero() {
    assert!(resolve_repeat_params(Some((0, 500))).is_none());
}

#[test]
fn resolve_repeat_params_clamps_negative_delay() {
    let (delay, _) =
        resolve_repeat_params(Some((30, -10))).expect("clamped-negative-delay params");
    assert_eq!(delay, Span::zero());
}

#[test]
fn interval_from_rate_clamps_below_one_ms() {
    assert_eq!(interval_from_rate(30), Span::from_millis(33));
    assert_eq!(interval_from_rate(1), Span::from_millis(1000));
    assert_eq!(interval_from_rate(10000), Span::from_millis(1));
    assert_eq!(interval_from_rate(0), Span::from_millis(1000 / 30));
}

#[test]
fn resolve_repeat_params_defaults_when_no_compositor_info() {
    let (delay, interval) = resolve_repeat_params(None).expect("default params");
    assert_eq!(delay, Span::from_millis(DEFAULT_DELAY_MS));
    assert_eq!(interval, interval_from_rate(DEFAULT_RATE));
}

#[test]
fn resolve_repeat_params_uses_compositor_info_when_present() {
    let (delay, interval) =
        resolve_repeat_params(Some((25, 500))).expect("compositor-provided params");
    assert_eq!(delay, Span::from_millis(500));
    assert_eq!(interval, interval_from_rate(25));
}

#[test]
fn negative_rate_means_no_repeat() {
    assert!(resolve_repeat_params(Some((-3, 200))).is_none());
}

#[test]
fn interval_of_forty_hertz_is_twenty_five_ms() {
    assert_eq!(interval_from_rate(40).as_millis(), 25);
}
