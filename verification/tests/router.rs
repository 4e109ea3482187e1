use typio_host::keyboard::{
    text_ui_plan_update, DecodedKeyEvent, KeyRoute, KeyTrackState, KeyboardRouter, Modifiers,
    PreeditUpdate, TextUiPlan, KEY_CAPITAL_V, KEY_CONTROL_L, KEY_SHIFT_L, KEY_SUPER_L, KEY_V,
    MOD_CTRL, MOD_SHIFT, MOD_SUPER, WL_KEYBOARD_KEY_STATE_PRESSED, WL_KEYBOARD_KEY_STATE_RELEASED,
};

const NONE: u32 = 0;

fn mod_key(keysym: u32, pressed: bool, time: u32) -> DecodedKeyEvent {
    DecodedKeyEvent {
        keycode: 0,
        xkb_keycode: 0,
        keysym,
        unicode: "\0".to_string(),
        state: if pressed { 1 } else { 0 },
        time,
    }
}

#[test]
fn preedit_dedup_classifies_arrow_vs_text_change() {
    let plan = text_ui_plan_update(Some("nihao"), 5, Some("nihao"), 5);
    assert_eq!(plan, TextUiPlan::SyncPanelOnly);

    let plan = text_ui_plan_update(Some("ni"), 2, Some("nih"), 3);
    assert_eq!(plan, TextUiPlan::SyncPreeditAndPanel);

    let plan = text_ui_plan_update(Some("ni"), 1, Some("ni"), 2);
    assert_eq!(plan, TextUiPlan::SyncPreeditAndPanel);
}

#[test]
fn scrub_generation_increments_epoch_and_clears_tracking() {
    let mut router = KeyboardRouter::new();
    router.key_tracking_states[0] = KeyTrackState::Forwarded;
    router.key_tracking_generations[0] = 7;
    router.repeat_key = Some(DecodedKeyEvent {
        keycode: 1,
        xkb_keycode: 9,
        keysym: 0x0061,
        unicode: "a".to_string(),
        state: 1,
        time: 0,
    });

    let before = router.active_generation();
    router.scrub_generation();

    assert_eq!(router.active_generation(), before + 1);
    assert_eq!(router.key_tracking_states[0], KeyTrackState::Idle);
    assert_eq!(router.key_tracking_generations[0], 0);
    assert!(router.repeat_key.is_none());
}

#[test]
fn scrub_generation_never_produces_zero_generation() {
    let mut router = KeyboardRouter::new();
    router.active_generation = u32::MAX;
    router.scrub_generation();
    assert_eq!(router.active_generation(), 1);
}

#[test]
fn soft_pause_marks_forwarded_keys_released_pending() {
    let mut router = KeyboardRouter::new();
    router.key_tracking_states[0] = KeyTrackState::Forwarded;
    router.key_tracking_states[1] = KeyTrackState::Idle;
    router.key_tracking_states[2] = KeyTrackState::AppShortcut;
    router.key_tracking_states[3] = KeyTrackState::SuppressedStartup;
    router.repeat_key = Some(DecodedKeyEvent {
        keycode: 1,
        xkb_keycode: 9,
        keysym: 0x0061,
        unicode: "a".to_string(),
        state: 1,
        time: 0,
    });

    router.soft_pause();

    assert_eq!(
        router.key_tracking_states[0],
        KeyTrackState::ReleasedPending
    );
    assert_eq!(router.key_tracking_states[1], KeyTrackState::Idle);
    assert_eq!(
        router.key_tracking_states[2],
        KeyTrackState::ReleasedPending
    );
    assert_eq!(
        router.key_tracking_states[3],
        KeyTrackState::SuppressedStartup
    );
    assert!(router.repeat_key.is_none());
    assert_eq!(router.physical_modifiers, Modifiers(NONE));
}

#[test]
fn preedit_tracking_starts_empty_and_resets() {
    let mut router = KeyboardRouter::new();
    router.preedit_tracking.last_text = Some("ni".to_string());
    router.preedit_tracking.last_cursor = 2;
    router.preedit_tracking_reset();
    assert_eq!(router.preedit_tracking.last_text, None);
    assert_eq!(router.preedit_tracking.last_cursor, -1);
}

#[test]
fn switch_chord_fires_on_clean_ctrl_shift_release() {
    let mut router = KeyboardRouter::new();
    assert!(!router.track_switch_modifier(Modifiers(MOD_CTRL), true));
    assert!(!router.track_switch_modifier(Modifiers(MOD_SHIFT), true));
    assert!(router.chord_full_set_held);
    assert!(router.track_switch_modifier(Modifiers(MOD_SHIFT), false));
    assert!(!router.track_switch_modifier(Modifiers(MOD_CTRL), false));
    assert!(!router.chord_full_set_held);
    assert!(!router.shortcut_already_triggered);
}

#[test]
fn switch_chord_suppressed_when_non_modifier_joins() {
    let mut router = KeyboardRouter::new();
    router.track_switch_modifier(Modifiers(MOD_CTRL), true);
    router.track_switch_modifier(Modifiers(MOD_SHIFT), true);
    router.shortcut_saw_non_modifier = true;
    assert!(!router.track_switch_modifier(Modifiers(MOD_SHIFT), false));
    assert!(!router.track_switch_modifier(Modifiers(MOD_CTRL), false));
}

#[test]
fn super_v_press_and_release_are_voice_ptt_shortcut() {
    let mut router = KeyboardRouter::new();
    let press = DecodedKeyEvent {
        keycode: 47,
        xkb_keycode: 55,
        keysym: KEY_V,
        unicode: "v".to_string(),
        state: WL_KEYBOARD_KEY_STATE_PRESSED,
        time: 10,
    };
    let release = DecodedKeyEvent {
        state: WL_KEYBOARD_KEY_STATE_RELEASED,
        time: 20,
        ..press.clone()
    };

    assert_eq!(router.dispatch_key(&press, MOD_SUPER), KeyRoute::VoicePttPressed);
    assert!(router.take_voice_ptt_pressed());
    assert!(!router.take_voice_ptt_pressed());

    assert_eq!(router.dispatch_key(&release, NONE), KeyRoute::VoicePttReleased);
    assert!(router.take_voice_ptt_released());
    assert!(!router.take_voice_ptt_released());
}

#[test]
fn super_capital_v_is_voice_ptt_shortcut() {
    let mut router = KeyboardRouter::new();
    let press = DecodedKeyEvent {
        keycode: 47,
        xkb_keycode: 55,
        keysym: KEY_CAPITAL_V,
        unicode: "V".to_string(),
        state: WL_KEYBOARD_KEY_STATE_PRESSED,
        time: 10,
    };

    assert_eq!(router.dispatch_key(&press, MOD_SUPER), KeyRoute::VoicePttPressed);
    assert!(router.take_voice_ptt_pressed());
}

#[test]
fn single_modifier_release_does_not_switch() {
    let mut router = KeyboardRouter::new();
    assert!(!router.track_switch_modifier(Modifiers(MOD_CTRL), true));
    assert!(!router.track_switch_modifier(Modifiers(MOD_CTRL), false));
}

#[test]
fn switch_chord_rearms_after_prior_typing() {
    let mut router = KeyboardRouter::new();
    router.shortcut_saw_non_modifier = true;
    router.track_switch_modifier(Modifiers(MOD_CTRL), true);
    router.track_switch_modifier(Modifiers(MOD_SHIFT), true);
    assert!(router.track_switch_modifier(Modifiers(MOD_SHIFT), false));
}

#[test]
fn scrub_generation_clears_switch_chord_state() {
    let mut router = KeyboardRouter::new();
    router.track_switch_modifier(Modifiers(MOD_CTRL), true);
    router.track_switch_modifier(Modifiers(MOD_SHIFT), true);
    router.shortcut_saw_non_modifier = true;
    assert!(router.chord_full_set_held);

    router.scrub_generation();

    assert!(!router.shortcut_saw_non_modifier);
    assert!(!router.chord_full_set_held);
    assert!(!router.shortcut_already_triggered);
}

#[test]
fn ctrl_shift_chord_still_fires_switch() {
    let mut router = KeyboardRouter::new();

    assert!(!router.take_switch_chord_fired());
    router.dispatch_key(&mod_key(KEY_CONTROL_L, true, 1), MOD_CTRL);
    assert!(!router.take_switch_chord_fired());
    router.dispatch_key(&mod_key(KEY_SHIFT_L, true, 2), MOD_CTRL | MOD_SHIFT);
    assert!(!router.take_switch_chord_fired());
    router.dispatch_key(&mod_key(KEY_SHIFT_L, false, 3), MOD_CTRL);
    assert!(
        router.take_switch_chord_fired(),
        "Ctrl+Shift chord must still fire"
    );
    assert!(!router.take_switch_chord_fired(), "fires only once");
}

#[test]
fn super_shift_does_not_fire_ctrl_shift_chord() {
    let mut router = KeyboardRouter::new();

    router.dispatch_key(&mod_key(KEY_SUPER_L, true, 1), MOD_SUPER);
    router.dispatch_key(&mod_key(KEY_SHIFT_L, true, 2), MOD_SUPER | MOD_SHIFT);
    router.dispatch_key(&mod_key(KEY_SHIFT_L, false, 3), MOD_SUPER);
    assert!(
        !router.take_switch_chord_fired(),
        "Super+Shift must not fire the Ctrl+Shift switch chord"
    );
}

#[test]
fn chord_suppressed_modifier_release_is_withheld_from_engine() {
    let mut router = KeyboardRouter::new();
    // The Shift press went to the engine and is tracked; a release of a
    // modifier the engine never saw pressed is withheld.
    assert_eq!(router.dispatch_key(&mod_key(KEY_SHIFT_L, true, 1), MOD_SHIFT), KeyRoute::Engine);
    assert_eq!(router.dispatch_key(&mod_key(KEY_SHIFT_L, false, 2), NONE), KeyRoute::Engine);
    assert_eq!(
        router.dispatch_key(&mod_key(KEY_CONTROL_L, false, 3), NONE),
        KeyRoute::SuppressedRelease
    );
}

#[test]
fn composition_updates_resend_preedit_only_on_change() {
    let mut router = KeyboardRouter::new();
    assert_eq!(router.preedit_tracking.plan_update("", 0, 0), PreeditUpdate::Keep);
    assert_eq!(
        router.preedit_tracking.plan_update("nihao", -1, 3),
        PreeditUpdate::Show { cursor: 5 }
    );
    assert_eq!(router.preedit_tracking.plan_update("nihao", -1, 3), PreeditUpdate::Keep);
    assert_eq!(
        router.preedit_tracking.plan_update("nihao", 2, 3),
        PreeditUpdate::Show { cursor: 2 }
    );
    assert_eq!(router.preedit_tracking.plan_update("", 0, 0), PreeditUpdate::Clear);
    assert_eq!(router.preedit_tracking.last_text, None);
    assert_eq!(router.preedit_tracking.last_cursor, -1);
}

#[test]
fn repeat_follows_the_held_key_until_release() {
    let mut router = KeyboardRouter::new();
    let key = DecodedKeyEvent {
        keycode: 30,
        xkb_keycode: 38,
        keysym: 0x61,
        unicode: "a".to_string(),
        state: 1,
        time: 5,
    };
    assert_eq!(router.next_repeat(), None);
    router.on_consumed(key.clone());
    assert_eq!(router.next_repeat(), Some(typio_host::keyboard::RepeatMode::Engine));
    router.on_release(&DecodedKeyEvent { state: 0, ..key.clone() });
    assert_eq!(router.next_repeat(), None);
}
