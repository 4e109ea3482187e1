use toml_edit::{value, Item};
use typio_host::platform_config::{
    load_platform_config, ConfigLoadError, DisplayValues,
};

fn values() -> DisplayValues {
    DisplayValues {
        theme: "dark".to_string(),
        layout: "vertical".to_string(),
        font_family: "mono".to_string(),
        panel_mode_indicator: true,
        anchor_probe: false,
        anchor_probe_timeout_ms: 275,
    }
}

#[test]
fn no_file_reads_as_the_documented_defaults() {
    let config = load_platform_config(None).unwrap();
    assert_eq!(config.theme(), "auto");
    assert_eq!(config.candidate_layout(), "horizontal");
    assert_eq!(config.font_family(), "default");
    assert!(!config.panel_mode_indicator());
    assert!(config.anchor_probe());
    assert_eq!(config.anchor_probe_timeout_ms(), 150);
}

#[test]
fn stored_values_are_read_and_wrong_kinds_fall_back() {
    let text = "[display]\npanel_theme = \"light\"\ncandidate_layout = 3\nfont_family = \"SERIF\"\n\
                anchor_probe = false\nanchor_probe_timeout_ms = \"soon\"\n";
    let config = load_platform_config(Some(text)).unwrap();
    assert_eq!(config.theme(), "light");
    assert_eq!(config.candidate_layout(), "horizontal");
    assert_eq!(config.font_family(), "serif");
    assert!(!config.anchor_probe());
    assert_eq!(config.anchor_probe_timeout_ms(), 150);
}

#[test]
fn free_text_family_reads_back_as_the_default_class() {
    let text = "[display]\nfont_family = \"Noto Sans CJK SC\"\n";
    let config = load_platform_config(Some(text)).unwrap();
    assert_eq!(config.font_family(), "default");
}

#[test]
fn invalid_toml_is_refused() {
    assert!(matches!(
        load_platform_config(Some("[display\npanel_theme = ")),
        Err(ConfigLoadError::InvalidData(_))
    ));
}

#[test]
fn update_keeps_comments_unknown_keys_and_other_tables() {
    let text = "# keep me\n[display]\npanel_theme = \"auto\"\nunknown = 42\n\n[other]\nx = 1\n";
    let mut config = load_platform_config(Some(text)).unwrap();
    let size: Item = value(13.0);
    config.update(&values(), size);
    let saved = config.document.to_string();
    assert!(saved.contains("# keep me"));
    assert!(saved.contains("unknown = 42"));
    assert!(saved.contains("[other]\nx = 1"));
    assert!(saved.contains("panel_theme = \"dark\""));
    assert!(saved.contains("font_size = 13.0"));
    assert!(saved.contains("anchor_probe_timeout_ms = 275"));
    assert_eq!(config.theme(), "dark");
    assert_eq!(config.candidate_layout(), "vertical");
    assert_eq!(config.font_family(), "mono");
    assert!(config.panel_mode_indicator());
    assert!(!config.anchor_probe());
    assert_eq!(config.anchor_probe_timeout_ms(), 275);
}

#[test]
fn update_turns_a_non_table_display_into_a_table() {
    let mut config = load_platform_config(Some("display = 5\n")).unwrap();
    config.update(&values(), value(11.0));
    assert!(config.document["display"].is_table());
    assert_eq!(config.theme(), "dark");
    assert_eq!(config.anchor_probe_timeout_ms(), 275);
}

#[test]
fn an_empty_font_size_item_leaves_the_other_settings_written() {
    let mut config = load_platform_config(None).unwrap();
    config.update(&values(), Item::None);
    assert_eq!(config.theme(), "dark");
    assert_eq!(config.anchor_probe_timeout_ms(), 275);
    assert!(config.document["display"].get("font_size").is_none());
}
