//! The state that the window, the input devices and the clicking loop share,
//! and what a key event from an input device does to it.

use crate::interval::{click_delay_span, Interval};
use crate::model::AppMessages;
use vstd::prelude::*;

verus! {

/// The values the window, the device readers and the clicking loop share.
#[derive(Clone, Copy, Debug, PartialEq, Eq, Structural)]
pub struct AppContext {
    /// Toggle mode: the hotkey turns clicking on and off; otherwise clicking
    /// lasts while the hotkey is held.
    pub toggle: bool,
    /// Whether the clicking loop goes on clicking.
    pub keep_clicking: bool,
    /// Code of the activation key.
    pub captured_input: u16,
    /// Whether the next key pressed becomes the activation key.
    pub capturing: bool,
    /// The click interval in whole milliseconds.
    pub duration: u64,
}

/// Key value of a press, as the kernel reports it.
pub const KEY_PRESSED: i32 = 1;

/// Key value of a release, as the kernel reports it.
pub const KEY_RELEASED: i32 = 0;

/// What a key event (`code`, `value`) from an input device does to the
/// shared state, and the message it sends to the window, if any.
///
/// - A press while capturing makes the key the activation key and ends capturing.
/// - A press of the activation key flips clicking in toggle mode and starts it
///   in hold mode.
/// - A release of the activation key stops clicking in hold mode.
/// - Every other event changes nothing.
pub open spec fn key_step(cx: AppContext, code: u16, value: i32) -> (AppContext, Option<AppMessages>) {
    if value == KEY_PRESSED {
        if cx.capturing {
            (AppContext { capturing: false, captured_input: code, ..cx }, Some(AppMessages::CaptureEnd(code)))
        } else if code != cx.captured_input {
            (cx, None)
        } else if cx.toggle {
            (AppContext { keep_clicking: !cx.keep_clicking, ..cx }, Some(AppMessages::ClickingBegin))
        } else {
            (AppContext { keep_clicking: true, ..cx }, Some(AppMessages::ClickingBegin))
        }
    } else if value == KEY_RELEASED {
        if code != cx.captured_input || cx.toggle {
            (cx, None)
        } else {
            (AppContext { keep_clicking: false, ..cx }, Some(AppMessages::ClickingBegin))
        }
    } else {
        (cx, None)
    }
}

impl AppContext {
    /// Applies a key event from an input device and returns the message to
    /// send to the window, if any.
    pub fn handle_key_event(&mut self, code: u16, value: i32) -> (signal: Option<AppMessages>)
        ensures
            (*final(self), signal) == key_step(*old(self), code, value),
    {
        if value == KEY_PRESSED {
            if self.capturing {
                self.capturing = false;
                self.captured_input = code;
                return Some(AppMessages::CaptureEnd(code));
            }
            if code != self.captured_input {
                return None;
            }
            if self.toggle {
                self.keep_clicking = !self.keep_clicking;
            } else {
                self.keep_clicking = true;
            }
            Some(AppMessages::ClickingBegin)
        } else if value == KEY_RELEASED {
            if code != self.captured_input {
                return None;
            }
            if self.toggle {
                return None;
            }
            self.keep_clicking = false;
            Some(AppMessages::ClickingBegin)
        } else {
            None
        }
    }

    /// The span the clicking loop waits after a click: the shared interval,
    /// but at least one millisecond.
    pub fn click_delay(&self) -> (delay: Interval)
        ensures
            delay@ == click_delay_span(self.duration as nat),
    {
        crate::interval::click_delay(self.duration)
    }
}

} // verus!
