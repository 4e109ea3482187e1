use typio_host::tray::{
    keyboard_at_index, language_at_index, orphan_keyboard_at_index, orphan_keyboards,
    plan_tray_action, voice_at_index, EngineDesc, MenuAction, RegistryCommand, RegistrySnapshot,
};

fn engine(name: &str, langs: &[&str]) -> EngineDesc {
    EngineDesc {
        name: name.into(),
        display_name: Some(name.to_uppercase()),
        languages: langs.iter().map(|l| l.to_string()).collect(),
    }
}

fn snapshot() -> RegistrySnapshot {
    RegistrySnapshot {
        languages: vec!["zh-Hans".into(), "en".into()],
        active_language: Some("en".into()),
        keyboards: vec![
            engine("rime", &["zh-Hans"]),
            engine("mozc", &["ja"]),
            engine("basic", &["en", "de"]),
            engine("plain", &[]),
        ],
        voices: vec![engine("whisper", &[])],
        active_voice: None,
    }
}

#[test]
fn menu_indices_resolve_to_registry_entries() {
    let s = snapshot();
    assert_eq!(language_at_index(&s, 1).as_deref(), Some("en"));
    assert_eq!(language_at_index(&s, 2), None);
    assert_eq!(keyboard_at_index(&s, 2).as_deref(), Some("basic"));
    assert_eq!(voice_at_index(&s, 0).as_deref(), Some("whisper"));
    assert_eq!(voice_at_index(&s, 1), None);
}

#[test]
fn orphans_are_keyboards_serving_no_known_language() {
    let s = snapshot();
    assert_eq!(orphan_keyboards(&s), ["mozc", "plain"]);
    assert_eq!(orphan_keyboard_at_index(&s, 1).as_deref(), Some("plain"));
    assert_eq!(orphan_keyboard_at_index(&s, 2), None);
}

#[test]
fn menu_actions_become_registry_commands() {
    let s = snapshot();
    assert_eq!(
        plan_tray_action(&s, MenuAction::Language(0)),
        Some(RegistryCommand::ActivateLanguage("zh-Hans".into()))
    );
    assert_eq!(
        plan_tray_action(&s, MenuAction::EngineInLanguage { lang_idx: 1, engine_idx: 2 }),
        Some(RegistryCommand::ActivateLanguageKeyboard { tag: "en".into(), keyboard: "basic".into() })
    );
    assert_eq!(plan_tray_action(&s, MenuAction::EngineInLanguage { lang_idx: 5, engine_idx: 0 }), None);
    assert_eq!(
        plan_tray_action(&s, MenuAction::OrphanEngine(0)),
        Some(RegistryCommand::ActivateKeyboard("mozc".into()))
    );
    assert_eq!(
        plan_tray_action(&s, MenuAction::Voice(0)),
        Some(RegistryCommand::ActivateVoice("whisper".into()))
    );
    assert_eq!(plan_tray_action(&s, MenuAction::Quit), None);
    assert_eq!(plan_tray_action(&s, MenuAction::Restart), None);
}
