use typio_host::settings::{
    action_edited_key, action_method, active_language_index, input_page_entries, Language, action_success_message, daemon_protocol_supported,
    eq_ignore_ascii_case, font_family_class, font_family_for_index, font_family_index,
    layout_for_index, layout_index, platform_config_path, poll_events, theme_for_index,
    theme_index, value_as_text, Action, ConfigEntry, EntryValue, Event, DEFAULT_ANCHOR_TIMEOUT_MS,
    DEFAULT_FONT_FAMILY, DEFAULT_LAYOUT, DEFAULT_THEME,
};

fn entry(value: EntryValue) -> ConfigEntry {
    ConfigEntry {
        key: "shortcuts.exit".into(),
        field_type: "string".into(),
        value,
        source: "default".into(),
        label: "Emergency exit".into(),
        section: "shortcuts".into(),
        choices: vec![],
    }
}

#[test]
fn config_entry_shows_its_text_value() {
    let entry = entry(EntryValue::Text("Control+Alt+Escape".into()));
    assert_eq!(entry.field_type, "string");
    assert_eq!(entry.text_value(), "Control+Alt+Escape");
}

#[test]
fn entry_labels_fall_back_to_key_and_general_section() {
    let mut e = entry(EntryValue::Null);
    assert_eq!(e.display_label(), "Emergency exit");
    assert_eq!(e.section_label(), "shortcuts");
    e.label = String::new();
    e.section = String::new();
    assert_eq!(e.display_label(), "shortcuts.exit");
    assert_eq!(e.section_label(), "general");
    assert_eq!(e.text_value(), "");
}

#[test]
fn values_show_as_text() {
    assert_eq!(value_as_text(&EntryValue::Bool(true)), "true");
    assert_eq!(value_as_text(&EntryValue::Json("[1,2]".into())), "[1,2]");
    assert_eq!(value_as_text(&EntryValue::Null), "");
}

#[test]
fn selected_choice_is_the_current_value_or_the_first() {
    let mut e = entry(EntryValue::Text("dark".into()));
    e.choices = vec!["auto".into(), "light".into(), "dark".into()];
    assert_eq!(e.selected_choice(), 2);
    e.value = EntryValue::Text("blue".into());
    assert_eq!(e.selected_choice(), 0);
}

#[test]
fn display_defaults_are_documented_values() {
    assert_eq!(DEFAULT_THEME, "auto");
    assert_eq!(DEFAULT_LAYOUT, "horizontal");
    assert_eq!(font_family_class(None), DEFAULT_FONT_FAMILY);
    assert_eq!(DEFAULT_ANCHOR_TIMEOUT_MS, 150);
}

#[test]
fn unrecognised_font_family_class_is_default() {
    assert_eq!(font_family_class(Some("Noto Sans CJK SC")), DEFAULT_FONT_FAMILY);
}

#[test]
fn font_family_classes_match_ignoring_ascii_case() {
    assert_eq!(font_family_class(Some("MONO")), "mono");
    assert_eq!(font_family_class(Some("Serif")), "serif");
    assert!(eq_ignore_ascii_case("SaNs", "sans"));
    assert!(!eq_ignore_ascii_case("sans", "sans "));
    assert_eq!(font_family_index("serif"), 2);
    assert_eq!(font_family_index("fantasy"), 0);
    assert_eq!(font_family_for_index(-3), "default");
    assert_eq!(font_family_for_index(3), "mono");
    assert_eq!(font_family_for_index(9), "mono");
}

#[test]
fn theme_and_layout_menus() {
    assert_eq!(theme_index("light"), 1);
    assert_eq!(theme_index("dark"), 2);
    assert_eq!(theme_index("auto"), 0);
    assert_eq!(theme_for_index(2), "dark");
    assert_eq!(theme_for_index(7), "auto");
    assert_eq!(layout_index("vertical"), 1);
    assert_eq!(layout_index("horizontal"), 0);
    assert_eq!(layout_for_index(1), "vertical");
    assert_eq!(layout_for_index(0), "horizontal");
}

#[test]
fn platform_config_path_precedence() {
    assert_eq!(platform_config_path(Some("/x"), Some("/h")), "/x/typio/platform.toml");
    assert_eq!(platform_config_path(Some(""), Some("/h")), "/h/.config/typio/platform.toml");
    assert_eq!(platform_config_path(None, None), "/tmp/typio-platform.toml");
}

#[test]
fn old_daemons_are_refused() {
    assert!(!daemon_protocol_supported(None));
    assert!(!daemon_protocol_supported(Some(2)));
    assert!(daemon_protocol_supported(Some(3)));
}

#[test]
fn actions_map_to_methods_and_messages() {
    let voice = Action::UseEngine { kind: "voice".into(), name: "whisper".into() };
    assert_eq!(action_method(&voice), "voice.use");
    assert_eq!(action_success_message(&voice), "Active voice engine changed to whisper");
    let kb = Action::UseEngine { kind: "keyboard".into(), name: "rime".into() };
    assert_eq!(action_method(&kb), "keyboard.use");
    let set = Action::SetConfig { key: "a.b".into(), value: "1".into() };
    assert_eq!(action_method(&set), "config.set");
    assert_eq!(action_success_message(&set), "Saved a.b");
    assert_eq!(action_edited_key(&set).map(String::as_str), Some("a.b"));
    let inv = Action::Invoke { engine: "rime".into(), command: "deploy".into() };
    assert_eq!(action_success_message(&inv), "Ran deploy for rime");
    assert_eq!(action_edited_key(&inv), None);
    assert_eq!(action_method(&Action::UseLanguage("en".into())), "language.use");
    assert_eq!(
        action_success_message(&Action::UnsetConfig("k".into())),
        "Restored the default for k"
    );
}

#[test]
fn subscription_events_drive_refresh_and_status() {
    let o = poll_events(&vec![Event::Changed], true, false);
    assert!(o.refresh && o.connected && o.status.is_none());
    let o = poll_events(
        &vec![Event::Disconnected("a".into()), Event::Disconnected("b".into())],
        true,
        false,
    );
    assert!(!o.refresh && !o.connected);
    assert_eq!(o.status.as_deref(), Some("Daemon connection lost: b"));
    let o = poll_events(&vec![], false, true);
    assert!(o.refresh && !o.connected);
    let o = poll_events(&vec![], true, true);
    assert!(!o.refresh);
}

#[test]
fn menu_choices_write_back_what_they_show() {
    for value in [None, Some("SANS"), Some("serif"), Some("Mono"), Some("fantasy")] {
        let class = font_family_class(value);
        assert_eq!(font_family_for_index(font_family_index(class) as i32), class);
    }
    for theme in ["light", "dark", "auto"] {
        assert_eq!(theme_for_index(theme_index(theme)), theme);
    }
    for layout in ["horizontal", "vertical"] {
        assert_eq!(layout_for_index(layout_index(layout)), layout);
    }
}

fn keyed(key: &str) -> ConfigEntry {
    let mut e = entry(EntryValue::Null);
    e.key = key.to_string();
    e
}

#[test]
fn input_page_lists_keyboard_voice_and_language_keys_in_order() {
    let entries = vec![
        keyed("keyboard.repeat"),
        keyed("display.theme"),
        keyed("voice.model"),
        keyed("keyboardx.other"),
        keyed("languages.enabled"),
        keyed("voice"),
    ];
    assert_eq!(input_page_entries(&entries), vec![0, 2, 4]);
}

#[test]
fn language_dropdown_starts_on_the_active_language() {
    let langs = vec![
        Language { tag: "en".into(), active: false },
        Language { tag: "zh-Hans".into(), active: false },
        Language { tag: "ja".into(), active: true },
    ];
    assert_eq!(active_language_index(&langs, "zh-Hans"), 1);
    assert_eq!(active_language_index(&langs, "xx"), 2);
    let none = vec![Language { tag: "en".into(), active: false }];
    assert_eq!(active_language_index(&none, "xx"), 0);
}
