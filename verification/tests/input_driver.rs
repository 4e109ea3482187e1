use typio_host::input_driver::{
    press_action, release_action, voice_start_banner, PressAction, ReleaseAction,
    VoiceStartOutcome,
};

#[test]
fn press_follow_up_precedence() {
    assert_eq!(press_action(true, true, true), PressAction::CycleLanguage);
    assert_eq!(press_action(false, true, false), PressAction::StartVoice);
    assert_eq!(press_action(false, false, true), PressAction::EngineRepeat);
    assert_eq!(press_action(false, false, false), PressAction::ForwardRepeat);
}

#[test]
fn releases_pair_with_forwarded_presses() {
    assert_eq!(
        release_action(false, true, true),
        ReleaseAction { stop_voice: false, drain_engine: true, forward: true }
    );
    assert_eq!(
        release_action(false, true, false),
        ReleaseAction { stop_voice: false, drain_engine: true, forward: false }
    );
    assert_eq!(
        release_action(false, false, false),
        ReleaseAction { stop_voice: false, drain_engine: false, forward: true }
    );
    assert_eq!(
        release_action(true, true, true),
        ReleaseAction { stop_voice: true, drain_engine: false, forward: false }
    );
}

#[test]
fn push_to_talk_failures_show_a_transient_banner() {
    assert_eq!(voice_start_banner(&VoiceStartOutcome::Started), None);
    assert_eq!(voice_start_banner(&VoiceStartOutcome::NoVoice).as_deref(), Some("Voice: unavailable"));
    assert_eq!(
        voice_start_banner(&VoiceStartOutcome::FailedToStart).as_deref(),
        Some("Voice: could not start audio capture")
    );
    assert_eq!(
        voice_start_banner(&VoiceStartOutcome::Unavailable("no microphone".into())).as_deref(),
        Some("Voice: no microphone")
    );
}
