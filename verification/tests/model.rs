use auto_clicker::context::AppContext;
use auto_clicker::interval::{default_interval, Interval};
use auto_clicker::keys::default_hotkey;
use auto_clicker::model::{AppDuration, AppMessages, AppModel, Config, Devices, UpdateEffect};

fn config(interval: Interval, toggle: bool) -> Config {
    Config {
        interval,
        hotkey: default_hotkey(),
        toggle,
        devices: Devices {
            mouse: String::from("/dev/input/by-id/example-event-mouse"),
            keyboard: String::from("/dev/input/by-id/example-event-kbd"),
        },
    }
}

#[test]
fn init_splits_interval_into_parts() {
    // 1 h 2 min 3 s 456 ms and 789 us.
    let interval = Interval::from_secs_nanos(3723, 456_789_000);
    let (model, cx) = AppModel::init(config(interval, true));
    assert_eq!(model.durations[AppDuration::Milliseconds.index()], Interval::from_millis(456));
    assert_eq!(model.durations[AppDuration::Seconds.index()], Interval::from_secs(3));
    assert_eq!(model.durations[AppDuration::Minutes.index()], Interval::from_mins(2));
    assert_eq!(model.durations[AppDuration::Hours.index()], Interval::from_hours(1));
    assert!(!model.capturing && !model.is_clicking && !model.dirty);
    assert_eq!(model.config.interval, interval);
    assert_eq!(
        cx,
        AppContext {
            toggle: true,
            keep_clicking: false,
            captured_input: 0x114,
            capturing: false,
            duration: 3_723_456,
        }
    );
}

#[test]
fn init_with_default_interval() {
    let (model, cx) = AppModel::init(config(default_interval(), false));
    assert_eq!(model.durations[0], Interval::from_millis(15));
    assert_eq!(model.durations[1], Interval::zero());
    assert_eq!(cx.duration, 15);
    assert!(!cx.toggle);
}

#[test]
fn init_raises_sub_millisecond_interval() {
    let (model, cx) = AppModel::init(config(Interval::from_secs_nanos(0, 500_000), false));
    assert_eq!(model.durations[0], Interval::zero());
    assert_eq!(cx.duration, 1);
}

#[test]
fn init_with_longest_interval() {
    let interval = Interval::from_secs_nanos(u64::MAX, 999_999_999);
    let (model, cx) = AppModel::init(config(interval, false));
    assert_eq!(model.durations[3], Interval::from_hours(u64::MAX / 3600));
    let expected = ((u64::MAX as u128 * 1000 + 999) % (1u128 << 64)) as u64;
    assert_eq!(cx.duration, expected);
}

#[test]
fn capture_begin_sets_both_flags() {
    let (mut model, mut cx) = AppModel::init(config(default_interval(), false));
    let effect = model.update(&mut cx, AppMessages::CaptureBegin);
    assert_eq!(effect, UpdateEffect::Nothing);
    assert!(model.capturing && cx.capturing);
    assert!(!model.can_target());
    assert_eq!(model.key_label(), "Press any key...");
}

#[test]
fn capture_end_sets_hotkey_and_writes() {
    let (mut model, mut cx) = AppModel::init(config(default_interval(), false));
    model.update(&mut cx, AppMessages::CaptureBegin);
    let effect = model.update(&mut cx, AppMessages::CaptureEnd(30));
    assert_eq!(effect, UpdateEffect::WriteConfig);
    assert_eq!(model.config.hotkey, 30);
    assert!(!model.capturing && model.dirty);
    model.finish_save(true);
    assert!(!model.dirty);
    assert_eq!(model.key_label(), "KEY_A");
}

#[test]
fn toggle_message_sets_mode_everywhere() {
    let (mut model, mut cx) = AppModel::init(config(default_interval(), false));
    assert_eq!(model.update(&mut cx, AppMessages::Toggle(true)), UpdateEffect::WriteConfig);
    assert!(model.config.toggle && cx.toggle);
    assert_eq!(model.update(&mut cx, AppMessages::Toggle(false)), UpdateEffect::WriteConfig);
    assert!(!model.config.toggle && !cx.toggle);
}

#[test]
fn clicking_begin_depends_on_shared_flag() {
    let (mut model, mut cx) = AppModel::init(config(default_interval(), false));
    assert_eq!(model.update(&mut cx, AppMessages::ClickingBegin), UpdateEffect::Nothing);
    assert!(!model.is_clicking);
    cx.keep_clicking = true;
    assert_eq!(model.update(&mut cx, AppMessages::ClickingBegin), UpdateEffect::StartClicking);
    assert!(model.is_clicking);
    assert!(!model.can_target());
    assert_eq!(model.update(&mut cx, AppMessages::ClickingEnd), UpdateEffect::Nothing);
    assert!(!model.is_clicking);
    assert!(model.can_target());
}

#[test]
fn duration_change_recomputes_interval() {
    let (mut model, mut cx) = AppModel::init(config(default_interval(), false));
    let message = AppMessages::DurationChanged(AppDuration::Seconds, Interval::from_secs(2));
    assert!(model.accepts(&message));
    assert_eq!(model.update(&mut cx, message), UpdateEffect::WriteConfig);
    assert_eq!(model.durations[1], Interval::from_secs(2));
    assert_eq!(model.config.interval, Interval::from_millis(2015));
    assert_eq!(cx.duration, 2015);
    assert!(model.dirty && model.save_config());
    assert_eq!(model.interval_label(), "<b>Click Interval: 2s 15ms</b>");
}

#[test]
fn duration_change_to_zero_keeps_one_millisecond() {
    let (mut model, mut cx) = AppModel::init(config(default_interval(), false));
    model.update(&mut cx, AppMessages::DurationChanged(AppDuration::Milliseconds, Interval::zero()));
    assert_eq!(model.config.interval, Interval::from_millis(1));
    assert_eq!(cx.duration, 1);
    assert_eq!(cx.click_delay(), Interval::from_millis(1));
}

#[test]
fn duration_change_that_overflows_is_not_accepted() {
    let (model, _cx) = AppModel::init(config(Interval::from_secs(u64::MAX), false));
    let message = AppMessages::DurationChanged(AppDuration::Minutes, Interval::from_mins(10_000));
    assert!(!model.accepts(&message));
    assert!(model.accepts(&AppMessages::ClickingEnd));
}

#[test]
fn save_config_only_when_dirty() {
    let (mut model, _cx) = AppModel::init(config(default_interval(), false));
    assert!(!model.save_config());
    model.dirty = true;
    assert!(model.save_config());
    assert!(model.dirty);
    model.finish_save(true);
    assert!(!model.dirty);
    assert!(!model.save_config());
}

#[test]
fn failed_write_keeps_unsaved_mark() {
    let (mut model, mut cx) = AppModel::init(config(default_interval(), false));
    assert_eq!(model.update(&mut cx, AppMessages::Toggle(true)), UpdateEffect::WriteConfig);
    assert!(model.save_config());
    model.finish_save(false);
    assert!(model.dirty && model.save_config());
    assert!(model.config.toggle);
    model.finish_save(true);
    assert!(!model.dirty);
}

#[test]
fn messages_without_change_leave_nothing_unsaved() {
    let (mut model, mut cx) = AppModel::init(config(default_interval(), false));
    for message in [AppMessages::CaptureBegin, AppMessages::ClickingBegin, AppMessages::ClickingEnd] {
        assert_ne!(model.update(&mut cx, message), UpdateEffect::WriteConfig);
        assert!(!model.dirty);
    }
}

#[test]
fn labels_at_start() {
    let (model, _cx) = AppModel::init(config(Interval::from_secs(9420), false));
    assert_eq!(model.key_label(), "BTN_EXTRA");
    assert_eq!(model.interval_label(), "<b>Click Interval: 2h 37m</b>");
    assert!(model.can_target());
}
