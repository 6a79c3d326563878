//! Properties of the clicker that span several of its operations.

use crate::context::{key_step, AppContext, KEY_PRESSED, KEY_RELEASED};
use crate::interval::{click_delay_span, max_span, whole_millis};
use crate::keys::key_code_name;
use crate::model::{
    accepts, effective_span, finish_save_spec, in_sync, key_label_text, parts_total, update_spec,
    AppDuration, AppMessages, AppModelView, UpdateEffect,
};
use vstd::prelude::*;

verus! {

/// Every message the window takes keeps the shared state in agreement with
/// the window: the same mode, and the interval the four parts make.
pub proof fn lemma_update_keeps_sync(m: AppModelView, cx: AppContext, msg: AppMessages)
    requires
        in_sync(m, cx),
        accepts(m, msg),
    ensures
        in_sync(update_spec(m, cx, msg).0, update_spec(m, cx, msg).1),
{
}

/// Key events from the input devices never touch the mode or the interval,
/// so they keep the shared state in agreement with the window.
pub proof fn lemma_key_event_keeps_sync(m: AppModelView, cx: AppContext, code: u16, value: i32)
    requires
        in_sync(m, cx),
    ensures
        in_sync(m, key_step(cx, code, value).0),
{
}

/// While the shared state agrees with the window, the clicking loop waits
/// exactly the interval the window shows, cut to whole milliseconds, as long
/// as that interval's milliseconds fit in 64 bits.
pub proof fn lemma_click_delay_matches_interval(m: AppModelView, cx: AppContext)
    requires
        in_sync(m, cx),
        effective_span(m.parts) / 1_000_000 < 0x1_0000_0000_0000_0000,
    ensures
        click_delay_span(cx.duration as nat) == whole_millis(effective_span(m.parts)),
        click_delay_span(cx.duration as nat) >= 1_000_000,
{
    let span = effective_span(m.parts);
    assert(span >= 1_000_000);
    vstd::arithmetic::div_mod::lemma_fundamental_div_mod(span as int, 1_000_000);
    assert(span / 1_000_000 >= 1) by (nonlinear_arith)
        requires
            span >= 1_000_000,
    ;
}

/// In hold mode, pressing the hotkey starts clicking and releasing it stops
/// clicking; each tells the window.
pub proof fn lemma_hold_press_then_release(cx: AppContext)
    requires
        !cx.capturing,
        !cx.toggle,
    ensures
        ({
            let (pressed, first) = key_step(cx, cx.captured_input, KEY_PRESSED);
            let (released, second) = key_step(pressed, cx.captured_input, KEY_RELEASED);
            &&& pressed.keep_clicking
            &&& first == Some(AppMessages::ClickingBegin)
            &&& !released.keep_clicking
            &&& second == Some(AppMessages::ClickingBegin)
            &&& released == AppContext { keep_clicking: false, ..cx }
        }),
{
}

/// In toggle mode, each press of the hotkey flips clicking, so two presses
/// leave the state as it was; releasing the hotkey changes nothing.
pub proof fn lemma_toggle_presses(cx: AppContext)
    requires
        !cx.capturing,
        cx.toggle,
    ensures
        ({
            let (once, first) = key_step(cx, cx.captured_input, KEY_PRESSED);
            let (twice, second) = key_step(once, cx.captured_input, KEY_PRESSED);
            &&& once.keep_clicking == !cx.keep_clicking
            &&& first == Some(AppMessages::ClickingBegin)
            &&& twice == cx
            &&& second == Some(AppMessages::ClickingBegin)
        }),
        key_step(cx, cx.captured_input, KEY_RELEASED) == (cx, None::<AppMessages>),
{
}

/// Outside capturing, keys other than the hotkey, and events that are
/// neither a press nor a release, change nothing and tell the window nothing.
pub proof fn lemma_other_events_ignored(cx: AppContext, code: u16, value: i32)
    requires
        !cx.capturing,
        code != cx.captured_input || (value != KEY_PRESSED && value != KEY_RELEASED),
    ensures
        key_step(cx, code, value) == (cx, None::<AppMessages>),
{
}

/// Capturing a hotkey: after the window asks for a key, the next key pressed
/// on any device becomes the hotkey in the shared state and, once the window
/// hears of it, in the configuration, which is marked unsaved and asked to
/// be written out; clicking is left as it was and capturing ends on both sides.
pub proof fn lemma_capture_sets_hotkey(m: AppModelView, cx: AppContext, code: u16)
    ensures
        ({
            let (m1, cx1, e1) = update_spec(m, cx, AppMessages::CaptureBegin);
            let (cx2, signal) = key_step(cx1, code, KEY_PRESSED);
            let (m3, cx3, e3) = update_spec(m1, cx2, AppMessages::CaptureEnd(code));
            &&& m1.capturing
            &&& e1 == UpdateEffect::Nothing
            &&& signal == Some(AppMessages::CaptureEnd(code))
            &&& m3.config.hotkey == code
            &&& cx3.captured_input == code
            &&& !m3.capturing
            &&& !cx3.capturing
            &&& cx3.keep_clicking == cx.keep_clicking
            &&& e3 == UpdateEffect::WriteConfig
            &&& m3.dirty
        }),
{
}

/// Setting one part of the interval keeps the other parts, shows the new
/// part, and makes the configured interval the sum of the parts but at least
/// one millisecond, shared in whole milliseconds; the configuration is
/// marked unsaved and asked to be written out. Nothing else changes.
pub proof fn lemma_duration_change(m: AppModelView, cx: AppContext, which: AppDuration, part: crate::interval::Interval)
    requires
        m.parts.len() == 4,
        accepts(m, AppMessages::DurationChanged(which, part)),
    ensures
        ({
            let (m1, cx1, e1) = update_spec(m, cx, AppMessages::DurationChanged(which, part));
            &&& m1.parts[which.slot()] == part@
            &&& forall|i: int| 0 <= i < 4 && i != which.slot() ==> m1.parts[i] == m.parts[i]
            &&& m1.config.interval == effective_span(m1.parts)
            &&& m1.config.interval >= 1_000_000
            &&& m1.config.interval >= crate::model::parts_total(m1.parts)
            &&& cx1.duration as nat == (m1.config.interval / 1_000_000) % 0x1_0000_0000_0000_0000
            &&& e1 == UpdateEffect::WriteConfig
            &&& m1.dirty
            &&& m1.parts.len() == 4
            &&& m1.config.toggle == m.config.toggle && m1.config.hotkey == m.config.hotkey
            &&& m1.config.mouse == m.config.mouse && m1.config.keyboard == m.config.keyboard
            &&& m1.capturing == m.capturing && m1.is_clicking == m.is_clicking
            &&& cx1.toggle == cx.toggle && cx1.keep_clicking == cx.keep_clicking
            &&& cx1.captured_input == cx.captured_input && cx1.capturing == cx.capturing
        }),
{
}

/// The window only shows clicking when the shared state says to click, and
/// only then wakes the clicking loop.
pub proof fn lemma_clicking_begins_only_when_asked(m: AppModelView, cx: AppContext)
    ensures
        ({
            let (m1, cx1, e1) = update_spec(m, cx, AppMessages::ClickingBegin);
            &&& cx1 == cx
            &&& (e1 == UpdateEffect::StartClicking) == cx.keep_clicking
            &&& m1.is_clicking == (cx.keep_clicking || m.is_clicking)
            &&& (e1 == UpdateEffect::StartClicking || e1 == UpdateEffect::Nothing)
            &&& m1.config == m.config && m1.parts == m.parts
            &&& m1.capturing == m.capturing && m1.dirty == m.dirty
        }),
{
}

/// Exactly the messages that change a setting mark the configuration unsaved
/// and ask for a write; the mark goes away when the write succeeds and stays
/// when it fails.
pub proof fn lemma_changes_are_written(m: AppModelView, cx: AppContext, msg: AppMessages)
    ensures
        ({
            let (m1, cx1, e1) = update_spec(m, cx, msg);
            let changes = msg is Toggle || msg is CaptureEnd || msg is DurationChanged;
            &&& (e1 == UpdateEffect::WriteConfig) == changes
            &&& m1.dirty == (m.dirty || changes)
            &&& changes ==> !finish_save_spec(m1, true).dirty
            &&& changes ==> finish_save_spec(m1, false).dirty
            &&& finish_save_spec(m1, false) == m1
        }),
{
}

/// In hold mode, outside capturing, the hotkey alone decides clicking:
/// after a press clicking is on and after a release it is off, whatever it
/// was before; the window is told either way and nothing else changes.
pub proof fn lemma_hold_mode_follows_hotkey(cx: AppContext, value: i32)
    requires
        !cx.toggle,
        !cx.capturing,
        value == KEY_PRESSED || value == KEY_RELEASED,
    ensures
        key_step(cx, cx.captured_input, value).0.keep_clicking == (value == KEY_PRESSED),
        !key_step(cx, cx.captured_input, KEY_RELEASED).0.keep_clicking,
        key_step(cx, cx.captured_input, value).1 == Some(AppMessages::ClickingBegin),
        key_step(cx, cx.captured_input, value).0.toggle == cx.toggle,
        key_step(cx, cx.captured_input, value).0.captured_input == cx.captured_input,
        key_step(cx, cx.captured_input, value).0.capturing == cx.capturing,
        key_step(cx, cx.captured_input, value).0.duration == cx.duration,
{
}

/// What a key event may change: never the mode or the interval; the hotkey
/// only through a press while capturing, which makes the pressed key the
/// hotkey, ends capturing, leaves clicking as it was and reports the key.
pub proof fn lemma_key_event_scope(cx: AppContext, code: u16, value: i32)
    ensures
        key_step(cx, code, value).0.toggle == cx.toggle,
        key_step(cx, code, value).0.duration == cx.duration,
        key_step(cx, code, value).0.captured_input == (if cx.capturing && value == KEY_PRESSED {
            code
        } else {
            cx.captured_input
        }),
        key_step(cx, code, value).0.capturing == (cx.capturing && value != KEY_PRESSED),
        cx.capturing && value == KEY_PRESSED ==> key_step(cx, code, value).0.keep_clicking == cx.keep_clicking
            && key_step(cx, code, value).1 == Some(AppMessages::CaptureEnd(code)),
        key_step(cx, code, value).0.keep_clicking != cx.keep_clicking ==> code == cx.captured_input,
        key_step(cx, code, value).1 is Some ==> (value == KEY_PRESSED || value == KEY_RELEASED),
{
}

/// Choosing a mode sets both the configured and the shared mode to the
/// choice, whatever they were; nothing else changes but the unsaved mark, and
/// the configuration is to be written. Choosing the same mode twice is the
/// same as choosing it once.
pub proof fn lemma_mode_choice(m: AppModelView, cx: AppContext, value: bool)
    ensures
        ({
            let (m1, cx1, e1) = update_spec(m, cx, AppMessages::Toggle(value));
            &&& m1.config.toggle == value
            &&& cx1.toggle == value
            &&& m1.config.hotkey == m.config.hotkey
            &&& m1.config.interval == m.config.interval
            &&& m1.parts == m.parts
            &&& m1.capturing == m.capturing
            &&& m1.is_clicking == m.is_clicking
            &&& cx1.keep_clicking == cx.keep_clicking
            &&& cx1.captured_input == cx.captured_input
            &&& cx1.capturing == cx.capturing
            &&& cx1.duration == cx.duration
            &&& m1.dirty
            &&& e1 == UpdateEffect::WriteConfig
            &&& update_spec(m1, cx1, AppMessages::Toggle(value)) == (m1, cx1, e1)
        }),
{
}

/// The other messages: asking for a key sets capturing on both sides and
/// nothing else; a captured key becomes the configured hotkey, ends capturing
/// and leaves the shared state alone; the end of clicking only clears the
/// clicking mark.
pub proof fn lemma_other_messages(m: AppModelView, cx: AppContext, key: u16)
    ensures
        ({
            let (m1, cx1, e1) = update_spec(m, cx, AppMessages::CaptureBegin);
            &&& m1.capturing && cx1.capturing
            &&& m1.config == m.config && m1.parts == m.parts && m1.is_clicking == m.is_clicking && m1.dirty == m.dirty
            &&& cx1.toggle == cx.toggle && cx1.keep_clicking == cx.keep_clicking
            &&& cx1.captured_input == cx.captured_input && cx1.duration == cx.duration
            &&& e1 == UpdateEffect::Nothing
        }),
        ({
            let (m1, cx1, e1) = update_spec(m, cx, AppMessages::CaptureEnd(key));
            &&& m1.config.hotkey == key && !m1.capturing
            &&& m1.config.toggle == m.config.toggle && m1.config.interval == m.config.interval
            &&& m1.parts == m.parts && m1.is_clicking == m.is_clicking
            &&& cx1 == cx
            &&& e1 == UpdateEffect::WriteConfig
        }),
        ({
            let (m1, cx1, e1) = update_spec(m, cx, AppMessages::ClickingEnd);
            &&& !m1.is_clicking
            &&& m1.config == m.config && m1.parts == m.parts && m1.capturing == m.capturing && m1.dirty == m.dirty
            &&& cx1 == cx
            &&& e1 == UpdateEffect::Nothing
        }),
{
}

/// A new part is taken exactly when the other three parts and the new one
/// together fit in an `Interval`; no single part has a limit of its own.
/// Every other message is always taken.
pub proof fn lemma_accepts_when_sum_fits(m: AppModelView, which: AppDuration, part: crate::interval::Interval, msg: AppMessages)
    requires
        m.parts.len() == 4,
    ensures
        accepts(m, AppMessages::DurationChanged(which, part)) <==> parts_total(m.parts) - m.parts[which.slot()] + part@ <= max_span(),
        !(msg is DurationChanged) ==> accepts(m, msg),
{
}

/// The interval four parts make is their sum, unless that is under one
/// millisecond, in which case it is one millisecond.
pub proof fn lemma_effective_span(parts: Seq<nat>)
    ensures
        effective_span(parts) >= parts_total(parts),
        effective_span(parts) >= 1_000_000,
        effective_span(parts) == parts_total(parts) || effective_span(parts) == 1_000_000,
{
}

/// The activation-key button shows the prompt exactly while capturing and
/// otherwise the name of the configured hotkey, whether or not the clicker
/// is clicking.
pub proof fn lemma_key_label(m: AppModelView)
    ensures
        m.capturing ==> key_label_text(m) == "Press any key..."@,
        !m.capturing ==> key_label_text(m) == key_code_name(m.config.hotkey),
        key_label_text(AppModelView { is_clicking: !m.is_clicking, ..m }) == key_label_text(m),
{
}

/// The clicking loop waits the shared number of milliseconds, but never
/// less than one millisecond.
pub proof fn lemma_click_delay_floor(millis: nat)
    ensures
        click_delay_span(millis) >= millis * 1_000_000,
        click_delay_span(millis) >= 1_000_000,
        click_delay_span(millis) == millis * 1_000_000 || click_delay_span(millis) == 1_000_000,
{
}

/// The four parts stand in the order of their units, smallest first, each in
/// its own one of the four places.
pub proof fn lemma_unit_slots()
    ensures
        0 <= AppDuration::Milliseconds.slot(),
        AppDuration::Milliseconds.slot() < AppDuration::Seconds.slot(),
        AppDuration::Seconds.slot() < AppDuration::Minutes.slot(),
        AppDuration::Minutes.slot() < AppDuration::Hours.slot(),
        AppDuration::Hours.slot() < 4,
{
}

/// Recording a write changes only the unsaved mark: a successful write
/// clears it and a failed one leaves the window as it was.
pub proof fn lemma_finish_save(m: AppModelView)
    ensures
        !finish_save_spec(m, true).dirty,
        finish_save_spec(m, false) == m,
        finish_save_spec(m, true).config == m.config,
        finish_save_spec(m, true).parts == m.parts,
        finish_save_spec(m, true).capturing == m.capturing,
        finish_save_spec(m, true).is_clicking == m.is_clicking,
{
}

} // verus!
