use typio_host::time::{Span, Timestamp};
use typio_host::voice::{
    banner_for_error, banner_for_result, banner_for_state, hide_remaining_ms, BannerAction,
    VoiceState,
};

#[test]
fn in_progress_states_show_sticky_banners() {
    assert_eq!(
        banner_for_state(VoiceState::Idle, VoiceState::Recording, false),
        BannerAction::ShowSticky("Voice: listening…")
    );
    assert_eq!(
        banner_for_state(VoiceState::Recording, VoiceState::Processing, false),
        BannerAction::ShowSticky("Voice: transcribing…")
    );
    assert_eq!(
        banner_for_state(VoiceState::Idle, VoiceState::Loading, true),
        BannerAction::ShowSticky("Voice: loading model…")
    );
}

#[test]
fn going_idle_keeps_results_reports_silence_or_hides() {
    assert_eq!(banner_for_state(VoiceState::Processing, VoiceState::Idle, true), BannerAction::Keep);
    assert_eq!(
        banner_for_state(VoiceState::Processing, VoiceState::Idle, false),
        BannerAction::ShowTransient("Voice: no speech detected".to_string())
    );
    assert_eq!(banner_for_state(VoiceState::Recording, VoiceState::Idle, false), BannerAction::Hide);
}

#[test]
fn results_and_errors_are_prefixed() {
    assert_eq!(banner_for_result(""), "Voice: no speech detected");
    assert_eq!(banner_for_result("你好"), "Voice: 你好");
    assert_eq!(banner_for_error("mic busy"), "Voice: mic busy");
}

#[test]
fn hide_deadline_remaining() {
    let now = Timestamp::from_nanos(10_000_000_000);
    assert_eq!(hide_remaining_ms(None, now), None);
    assert_eq!(hide_remaining_ms(Some(now.add(Span::from_millis(1_500))), now), Some(1_500));
    assert_eq!(hide_remaining_ms(Some(now), now), Some(0));
    assert_eq!(hide_remaining_ms(Some(Timestamp::from_nanos(1)), now), None);
}
