use rsautoclicker::settings::{
    parse_millis, ClickType, Settings, SettingsDocument, MOUSEEVENTF_LEFTDOWN,
    MOUSEEVENTF_LEFTUP,
};

#[test]
fn default_settings_values() {
    let s = Settings::default();
    assert_eq!(s.activation_key, None);
    assert_eq!(s.click_delay_ms, 100);
    assert_eq!(s.click_duration_ms, 0);
    assert_eq!(s.click_type, ClickType::Left);
    assert_eq!(ClickType::default(), ClickType::Left);
}

#[test]
fn load_or_default_prefers_loaded() {
    let loaded = Settings {
        activation_key: Some(0x70),
        click_delay_ms: 5,
        click_duration_ms: 7,
        click_type: ClickType::Middle,
    };
    assert_eq!(Settings::load_or_default(Ok(loaded)), loaded);
    assert_eq!(Settings::load_or_default(Err(())), Settings::default());
}

#[test]
fn parse_millis_accepts_numbers() {
    assert_eq!(parse_millis("250"), Some(250));
    assert_eq!(parse_millis("0"), Some(0));
    assert_eq!(parse_millis("+7"), Some(7));
    assert_eq!(parse_millis("007"), Some(7));
    assert_eq!(parse_millis("18446744073709551615"), Some(u64::MAX));
}

#[test]
fn parse_millis_rejects_other_text() {
    assert_eq!(parse_millis(""), None);
    assert_eq!(parse_millis("+"), None);
    assert_eq!(parse_millis("-1"), None);
    assert_eq!(parse_millis("12a"), None);
    assert_eq!(parse_millis(" 5"), None);
    assert_eq!(parse_millis("5 "), None);
    assert_eq!(parse_millis("18446744073709551616"), None);
    assert_eq!(parse_millis("99999999999999999999"), None);
    assert_eq!(parse_millis("١٢"), None);
}

#[test]
fn parse_millis_agrees_with_std() {
    for text in ["1", "42", "+0", "++1", "1e3", "100000", "4294967296", ""] {
        assert_eq!(parse_millis(text), text.parse::<u64>().ok());
    }
}

#[test]
fn typed_delay_and_duration() {
    let s = Settings::default();
    let s2 = s.with_click_delay_text("40");
    assert_eq!(s2.click_delay_ms, 40);
    assert_eq!(s2.click_duration_ms, 0);
    let s3 = s2.with_click_delay_text("forty");
    assert_eq!(s3, s2);
    let s4 = s3.with_click_duration_text("12");
    assert_eq!(s4.click_duration_ms, 12);
    assert_eq!(s4.click_delay_ms, 40);
    assert_eq!(s4.with_click_duration_text(""), s4);
}

#[test]
fn click_type_names() {
    assert_eq!(ClickType::Left.name(), "Left");
    assert_eq!(ClickType::Right.name(), "Right");
    assert_eq!(ClickType::Middle.name(), "Middle");
    assert_eq!(ClickType::from_name("Right"), Some(ClickType::Right));
    assert_eq!(ClickType::from_name("Middle"), Some(ClickType::Middle));
    assert_eq!(ClickType::from_name("Left"), Some(ClickType::Left));
    assert_eq!(ClickType::from_name("left"), None);
    assert_eq!(ClickType::from_name("Lefty"), None);
    assert_eq!(ClickType::from_name(""), None);
}

#[test]
fn click_type_list() {
    assert_eq!(
        ClickType::all(),
        vec![ClickType::Left, ClickType::Right, ClickType::Middle]
    );
}

#[test]
fn click_type_event_flags() {
    assert_eq!(
        ClickType::Left.event_flags(),
        (MOUSEEVENTF_LEFTDOWN, MOUSEEVENTF_LEFTUP)
    );
    assert_eq!(ClickType::Left.event_flags(), (0x0002, 0x0004));
    assert_eq!(ClickType::Right.event_flags(), (0x0008, 0x0010));
    assert_eq!(ClickType::Middle.event_flags(), (0x0020, 0x0040));
}

#[test]
fn document_round_trip() {
    let s = Settings {
        activation_key: Some(0x75),
        click_delay_ms: 333,
        click_duration_ms: 12,
        click_type: ClickType::Right,
    };
    let doc = s.to_document();
    assert_eq!(doc.click_type, "Right");
    assert_eq!(doc.activation_key, Some(0x75));
    assert_eq!(doc.click_delay_ms, 333);
    assert_eq!(doc.click_duration_ms, 12);
    assert_eq!(Settings::from_document(&doc), Some(s));
    let d = Settings::default();
    assert_eq!(Settings::from_document(&d.to_document()), Some(d));
}

#[test]
fn document_with_unknown_button_is_refused() {
    let doc = SettingsDocument {
        activation_key: None,
        click_delay_ms: 1,
        click_duration_ms: 1,
        click_type: String::from("Side"),
    };
    assert_eq!(Settings::from_document(&doc), None);
}

#[test]
fn config_file_path_ends_in_config_json() {
    if let Some(path) = Settings::get_config_file_path() {
        assert!(path.ends_with("config.json"));
        let dir = Settings::get_config_directory_path().unwrap();
        assert_eq!(path.parent(), Some(dir.as_path()));
        assert_ne!(path, dir);
    }
}
