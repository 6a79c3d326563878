//! The running clicker as a whole: key events from the devices, messages
//! waiting for the window, and the window taking them one at a time.

use crate::context::{key_step, AppContext};
use crate::model::{
    accepts, finish_save_spec, in_sync, update_spec, AppMessages, AppModelView, UpdateEffect,
};
use crate::laws::{lemma_key_event_keeps_sync, lemma_update_keeps_sync};
use vstd::prelude::*;

verus! {

/// What can happen while the clicker runs.
pub enum Event {
    /// A key event (code, value) arrives from an input device.
    Key(u16, i32),
    /// A widget or the clicking loop sends the window a message.
    Send(AppMessages),
    /// The window takes its oldest waiting message; a write of the
    /// configuration that it asks for succeeds.
    Deliver,
}

/// The window, the shared state, and the messages sent to the window that it
/// has not taken yet, oldest first.
pub struct SystemView {
    pub model: AppModelView,
    pub cx: AppContext,
    pub pending: Seq<AppMessages>,
}

/// The hotkey the window will have configured once it has taken the waiting
/// messages, starting from `hotkey`.
pub open spec fn hotkey_after(pending: Seq<AppMessages>, hotkey: u16) -> u16
    decreases pending.len(),
{
    if pending.len() == 0 {
        hotkey
    } else {
        let next = match pending[0] {
            AppMessages::CaptureEnd(key) => key,
            _ => hotkey,
        };
        hotkey_after(pending.drop_first(), next)
    }
}

/// What one event does to the running clicker.
pub open spec fn step(s: SystemView, e: Event) -> SystemView {
    match e {
        Event::Key(code, value) => {
            let (cx, signal) = key_step(s.cx, code, value);
            let pending = match signal {
                Some(msg) => s.pending.push(msg),
                None => s.pending,
            };
            SystemView { cx, pending, ..s }
        },
        Event::Send(msg) => SystemView { pending: s.pending.push(msg), ..s },
        Event::Deliver => if s.pending.len() == 0 {
            s
        } else {
            let (model, cx, effect) = update_spec(s.model, s.cx, s.pending[0]);
            let model = if effect == UpdateEffect::WriteConfig {
                finish_save_spec(model, true)
            } else {
                model
            };
            SystemView { model, cx, pending: s.pending.drop_first() }
        },
    }
}

/// The running clicker after a sequence of events.
pub open spec fn run(s: SystemView, events: Seq<Event>) -> SystemView
    decreases events.len(),
{
    if events.len() == 0 {
        s
    } else {
        run(step(s, events[0]), events.drop_first())
    }
}

/// A sequence of events that can happen: widgets and the clicking loop never
/// send a captured key, and the window only takes messages it can take
/// (on the others the program stops).
pub open spec fn admissible(s: SystemView, events: Seq<Event>) -> bool
    decreases events.len(),
{
    if events.len() == 0 {
        true
    } else {
        let e = events[0];
        &&& (e matches Event::Send(msg) ==> !(msg is CaptureEnd))
        &&& (e is Deliver && s.pending.len() > 0 ==> accepts(s.model, s.pending[0]))
        &&& admissible(step(s, e), events.drop_first())
    }
}

/// What holds of the running clicker at every moment: the shared state
/// agrees with the window on mode and interval, no change is left unsaved,
/// and the shared hotkey is the one the window will have configured once it
/// has taken the waiting messages.
pub open spec fn system_inv(s: SystemView) -> bool {
    &&& s.model.parts.len() == 4
    &&& in_sync(s.model, s.cx)
    &&& !s.model.dirty
    &&& s.cx.captured_input == hotkey_after(s.pending, s.model.config.hotkey)
}

/// Adding a message at the end changes the outcome only if it is a captured key.
proof fn lemma_hotkey_after_push(pending: Seq<AppMessages>, msg: AppMessages, hotkey: u16)
    ensures
        hotkey_after(pending.push(msg), hotkey) == match msg {
            AppMessages::CaptureEnd(key) => key,
            _ => hotkey_after(pending, hotkey),
        },
    decreases pending.len(),
{
    let pushed = pending.push(msg);
    if pending.len() == 0 {
        assert(pushed.drop_first() =~= Seq::<AppMessages>::empty());
        reveal_with_fuel(hotkey_after, 2);
    } else {
        let next = match pending[0] {
            AppMessages::CaptureEnd(key) => key,
            _ => hotkey,
        };
        assert(pushed.drop_first() =~= pending.drop_first().push(msg));
        assert(pushed[0] == pending[0]);
        lemma_hotkey_after_push(pending.drop_first(), msg, next);
    }
}

/// With no captured key waiting, the hotkey stays as it is.
pub proof fn lemma_hotkey_after_no_capture(pending: Seq<AppMessages>, hotkey: u16)
    requires
        forall|i: int| 0 <= i < pending.len() ==> !(#[trigger] pending[i] is CaptureEnd),
    ensures
        hotkey_after(pending, hotkey) == hotkey,
    decreases pending.len(),
{
    if pending.len() > 0 {
        let rest = pending.drop_first();
        assert forall|i: int| 0 <= i < rest.len() implies !(#[trigger] rest[i] is CaptureEnd) by {
            assert(rest[i] == pending[i + 1]);
        }
        lemma_hotkey_after_no_capture(rest, hotkey);
    }
}

/// One event that can happen keeps the invariant.
pub proof fn lemma_step_keeps_inv(s: SystemView, e: Event)
    requires
        system_inv(s),
        e matches Event::Send(msg) ==> !(msg is CaptureEnd),
        e is Deliver && s.pending.len() > 0 ==> accepts(s.model, s.pending[0]),
    ensures
        system_inv(step(s, e)),
{
    match e {
        Event::Key(code, value) => {
            lemma_key_event_keeps_sync(s.model, s.cx, code, value);
            let (cx, signal) = key_step(s.cx, code, value);
            if let Some(msg) = signal {
                lemma_hotkey_after_push(s.pending, msg, s.model.config.hotkey);
            }
        },
        Event::Send(msg) => {
            lemma_hotkey_after_push(s.pending, msg, s.model.config.hotkey);
        },
        Event::Deliver => {
            if s.pending.len() > 0 {
                lemma_update_keeps_sync(s.model, s.cx, s.pending[0]);
            }
        },
    }
}

/// After any sequence of events that can happen, starting where the
/// invariant holds (as it does right after `AppModel::init`), the invariant
/// still holds: mode and interval agree, nothing is left unsaved, and with no
/// captured key waiting for the window the shared hotkey is the configured one.
pub proof fn lemma_run_keeps_inv(s: SystemView, events: Seq<Event>)
    requires
        system_inv(s),
        admissible(s, events),
    ensures
        system_inv(run(s, events)),
        (forall|i: int| 0 <= i < run(s, events).pending.len() ==> !(#[trigger] run(s, events).pending[i] is CaptureEnd))
            ==> run(s, events).cx.captured_input == run(s, events).model.config.hotkey,
    decreases events.len(),
{
    if events.len() > 0 {
        lemma_step_keeps_inv(s, events[0]);
        lemma_run_keeps_inv(step(s, events[0]), events.drop_first());
    }
    let t = run(s, events);
    if forall|i: int| 0 <= i < t.pending.len() ==> !(#[trigger] t.pending[i] is CaptureEnd) {
        lemma_hotkey_after_no_capture(t.pending, t.model.config.hotkey);
    }
}

} // verus!
