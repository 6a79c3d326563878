use auto_clicker::context::{AppContext, KEY_PRESSED, KEY_RELEASED};
use auto_clicker::interval::Interval;
use auto_clicker::model::{AppMessages, AppModel, Config, Devices};

fn shared(toggle: bool) -> AppContext {
    AppContext { toggle, keep_clicking: false, captured_input: 0x114, capturing: false, duration: 15 }
}

#[test]
fn hold_mode_press_and_release() {
    let mut cx = shared(false);
    assert_eq!(cx.handle_key_event(0x114, KEY_PRESSED), Some(AppMessages::ClickingBegin));
    assert!(cx.keep_clicking);
    assert_eq!(cx.handle_key_event(0x114, KEY_RELEASED), Some(AppMessages::ClickingBegin));
    assert!(!cx.keep_clicking);
    assert_eq!(cx, shared(false));
}

#[test]
fn toggle_mode_flips_on_press() {
    let mut cx = shared(true);
    assert_eq!(cx.handle_key_event(0x114, KEY_PRESSED), Some(AppMessages::ClickingBegin));
    assert!(cx.keep_clicking);
    assert_eq!(cx.handle_key_event(0x114, KEY_RELEASED), None);
    assert!(cx.keep_clicking);
    assert_eq!(cx.handle_key_event(0x114, KEY_PRESSED), Some(AppMessages::ClickingBegin));
    assert_eq!(cx, shared(true));
}

#[test]
fn other_keys_and_repeats_ignored() {
    let mut cx = shared(false);
    assert_eq!(cx.handle_key_event(30, KEY_PRESSED), None);
    assert_eq!(cx.handle_key_event(30, KEY_RELEASED), None);
    assert_eq!(cx.handle_key_event(0x114, 2), None);
    assert_eq!(cx, shared(false));
}

#[test]
fn capturing_takes_any_key() {
    let mut cx = AppContext { capturing: true, keep_clicking: true, ..shared(false) };
    assert_eq!(cx.handle_key_event(30, KEY_PRESSED), Some(AppMessages::CaptureEnd(30)));
    assert!(!cx.capturing);
    assert_eq!(cx.captured_input, 30);
    assert!(cx.keep_clicking);
    // A release while capturing is judged against the current hotkey only.
    let mut cx = AppContext { capturing: true, ..shared(false) };
    assert_eq!(cx.handle_key_event(0x114, KEY_RELEASED), Some(AppMessages::ClickingBegin));
    assert!(cx.capturing);
}

#[test]
fn click_delay_follows_shared_interval() {
    assert_eq!(shared(false).click_delay(), Interval::from_millis(15));
    let cx = AppContext { duration: 0, ..shared(false) };
    assert_eq!(cx.click_delay(), Interval::from_millis(1));
}

#[test]
fn capture_round_trip_through_window() {
    let config = Config {
        interval: Interval::from_millis(40),
        hotkey: 0x114,
        toggle: false,
        devices: Devices { mouse: String::from("m"), keyboard: String::from("k") },
    };
    let (mut model, mut cx) = AppModel::init(config);
    model.update(&mut cx, AppMessages::CaptureBegin);
    let signal = cx.handle_key_event(0x110, KEY_PRESSED).unwrap();
    model.update(&mut cx, signal);
    assert_eq!(model.config.hotkey, 0x110);
    assert_eq!(cx.captured_input, 0x110);
    assert!(!model.capturing && !cx.capturing && !cx.keep_clicking);
    // The new hotkey now drives clicking.
    assert_eq!(cx.handle_key_event(0x110, KEY_PRESSED), Some(AppMessages::ClickingBegin));
    assert!(cx.keep_clicking);
}

#[test]
fn delay_matches_window_interval() {
    let config = Config {
        interval: Interval::from_millis(2500),
        hotkey: 0x114,
        toggle: true,
        devices: Devices { mouse: String::from("m"), keyboard: String::from("k") },
    };
    let (mut model, mut cx) = AppModel::init(config);
    assert_eq!(cx.click_delay(), Interval::from_millis(2500));
    model.update(&mut cx, AppMessages::DurationChanged(
        auto_clicker::model::AppDuration::Minutes,
        Interval::from_mins(1),
    ));
    assert_eq!(cx.click_delay(), Interval::from_millis(62_500));
    assert_eq!(cx.click_delay(), model.config.interval);
}

#[test]
fn shared_hotkey_matches_configured_once_capture_delivered() {
    let config = Config {
        interval: Interval::from_millis(40),
        hotkey: 0x114,
        toggle: true,
        devices: Devices { mouse: String::from("m"), keyboard: String::from("k") },
    };
    let (mut model, mut cx) = AppModel::init(config);
    assert_eq!(cx.captured_input, model.config.hotkey);
    model.update(&mut cx, AppMessages::CaptureBegin);
    let captured = cx.handle_key_event(30, KEY_PRESSED).unwrap();
    // The capture is waiting for the window: the shared hotkey is ahead.
    assert_eq!(cx.captured_input, 30);
    assert_eq!(model.config.hotkey, 0x114);
    // A press of the new hotkey already counts before the window catches up.
    let begin = cx.handle_key_event(30, KEY_PRESSED).unwrap();
    model.update(&mut cx, captured);
    model.finish_save(true);
    model.update(&mut cx, begin);
    assert_eq!(cx.captured_input, model.config.hotkey);
    assert!(!model.dirty && model.is_clicking && cx.toggle == model.config.toggle);
}
