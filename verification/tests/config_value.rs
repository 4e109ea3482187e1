use typio_host::config_value::{
    key_listed, key_section, plan_config_list, ListedKey, StoredKey,
    parse_bool, parse_config_value, parse_i32, parse_string_list, resolve_field_type, trim,
    FieldConstraints, FieldType, ParsedValue,
};

#[test]
fn string_list_parser_accepts_csv_and_json() {
    assert_eq!(parse_string_list("zh-Hans, en").unwrap(), ["zh-Hans", "en"]);
    assert_eq!(
        parse_string_list(r#"["zh-Hans", "en"]"#).unwrap(),
        ["zh-Hans", "en"]
    );
}

#[test]
fn string_list_parser_rejects_non_string_json_items() {
    assert!(parse_string_list(r#"["en", 2]"#).is_err());
}

#[test]
fn string_list_parser_drops_empty_items_and_rejects_bad_json() {
    assert_eq!(parse_string_list(" a,, b ,").unwrap(), ["a", "b"]);
    assert!(parse_string_list("[not json").is_err());
    assert_eq!(parse_string_list("   ").unwrap(), Vec::<String>::new());
}

#[test]
fn integers_follow_rust_syntax_and_range() {
    assert_eq!(parse_i32("42"), Some(42));
    assert_eq!(parse_i32("+7"), Some(7));
    assert_eq!(parse_i32("-2147483648"), Some(i32::MIN));
    assert_eq!(parse_i32("2147483648"), None);
    assert_eq!(parse_i32("4x"), None);
    assert_eq!(parse_i32(""), None);
    assert_eq!(parse_i32("-"), None);
}

#[test]
fn booleans_accept_words_and_digits() {
    assert_eq!(parse_bool(" true "), Some(true));
    assert_eq!(parse_bool("0"), Some(false));
    assert_eq!(parse_bool("maybe"), None);
}

#[test]
fn trim_removes_unicode_white_space() {
    assert_eq!(trim("\u{3000} a b \t"), "a b");
}

#[test]
fn list_typed_current_value_keeps_array_type() {
    assert_eq!(resolve_field_type(Some(FieldType::String), Some(FieldType::Array)), Some(FieldType::Array));
    assert_eq!(resolve_field_type(Some(FieldType::Int), Some(FieldType::Bool)), Some(FieldType::Int));
    assert_eq!(resolve_field_type(None, Some(FieldType::Bool)), Some(FieldType::Bool));
    assert_eq!(resolve_field_type(None, None), None);
}

#[test]
fn config_values_are_checked_against_schema() {
    let choices = FieldConstraints {
        choices: Some(vec!["auto".to_string(), "dark".to_string()]),
        min: 0,
        max: 0,
    };
    assert_eq!(
        parse_config_value("dark", FieldType::String, Some(&choices)),
        Ok(ParsedValue::Text("dark".into()))
    );
    assert!(parse_config_value("blue", FieldType::String, Some(&choices)).is_err());

    let range = FieldConstraints { choices: None, min: 100, max: 10000 };
    assert_eq!(parse_config_value(" 1500 ", FieldType::Int, Some(&range)), Ok(ParsedValue::Int(1500)));
    assert!(parse_config_value("50", FieldType::Int, Some(&range)).is_err());
    let no_range = FieldConstraints { choices: None, min: 0, max: 0 };
    assert_eq!(parse_config_value("-5", FieldType::Int, Some(&no_range)), Ok(ParsedValue::Int(-5)));

    assert_eq!(parse_config_value("false", FieldType::Bool, None), Ok(ParsedValue::Bool(false)));
    assert!(parse_config_value("maybe", FieldType::Bool, None).is_err());
    assert_eq!(parse_config_value(" 1.5 ", FieldType::Float, None), Ok(ParsedValue::Float("1.5".into())));
    assert_eq!(
        parse_config_value("[\"en\"]", FieldType::Array, None),
        Ok(ParsedValue::List(vec!["en".to_string()]))
    );
    assert!(parse_config_value("[1]", FieldType::Array, None).is_err());
}

#[test]
fn config_listing_puts_schema_fields_first_then_unknown_stored_keys() {
    let schema = vec!["display.theme".to_string(), "notifications.enable".to_string()];
    let stored = vec![
        StoredKey { key: "display.theme".into(), typed: true },
        StoredKey { key: "display.extra".into(), typed: true },
        StoredKey { key: "display.table".into(), typed: false },
        StoredKey { key: "other.key".into(), typed: true },
    ];
    assert_eq!(
        plan_config_list(&schema, &stored, "display."),
        [ListedKey::Schema(0), ListedKey::Stored(1)]
    );
    assert_eq!(
        plan_config_list(&schema, &stored, ""),
        [ListedKey::Schema(0), ListedKey::Schema(1), ListedKey::Stored(1), ListedKey::Stored(3)]
    );
    assert!(key_listed("", "x"));
    assert!(!key_listed("display.", "display"));
    assert_eq!(key_section("engines.rime.schema").as_deref(), Some("engines.rime"));
    assert_eq!(key_section("plain"), None);
}
