use auto_clicker::keys::{
    default_hotkey, key_from_name, key_name, left_button, left_click_events, RawEvent,
};

#[test]
fn names_of_mouse_buttons() {
    assert_eq!(key_name(0x110), "BTN_LEFT");
    assert_eq!(key_name(0x114), "BTN_EXTRA");
    assert_eq!(key_name(30), "KEY_A");
}

#[test]
fn unknown_key_name() {
    assert_eq!(key_name(0x2ff), "unknown key: 767");
    assert_eq!(key_from_name(&key_name(0x2ff)), None);
}

#[test]
fn names_parse_back() {
    assert_eq!(key_from_name("BTN_LEFT"), Some(0x110));
    assert_eq!(key_from_name("KEY_A"), Some(30));
    assert_eq!(key_from_name("no such key"), None);
    for code in [1u16, 30, 0x110, 0x114, 0x2e7] {
        assert_eq!(key_from_name(&key_name(code)), Some(code));
    }
}

#[test]
fn default_hotkey_is_extra_button() {
    assert_eq!(default_hotkey(), 0x114);
    assert_eq!(left_button(), 0x110);
}

#[test]
fn left_click_is_press_then_release() {
    let reports = left_click_events();
    let sync = RawEvent { event_type: 0, code: 0, value: 0 };
    assert_eq!(reports[0], [RawEvent { event_type: 1, code: 0x110, value: 1 }, sync]);
    assert_eq!(reports[1], [RawEvent { event_type: 1, code: 0x110, value: 0 }, sync]);
}
