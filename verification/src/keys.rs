//! Key codes and the events the clicker writes, named as evdev names them.

use vstd::prelude::*;

verus! {

/// The text evdev's `Debug` impl of `KeyCode` writes for `code`: the name of
/// the key, or a note that the key is unknown.
pub uninterp spec fn key_code_name(code: u16) -> Seq<char>;

/// The key that evdev's `FromStr` impl of `KeyCode` reads from `name`, if any.
pub uninterp spec fn key_code_from_name(name: Seq<char>) -> Option<u16>;

/// Code of the left mouse button, `BTN_LEFT`.
pub open spec fn btn_left_spec() -> u16 {
    0x110
}

/// Code of the extra mouse button, `BTN_EXTRA`.
pub open spec fn btn_extra_spec() -> u16 {
    0x114
}

/// Event type of key and button changes, `EV_KEY`.
pub open spec fn ev_key_spec() -> u16 {
    0x01
}

/// Event type of the report separators, `EV_SYN`.
pub open spec fn ev_syn_spec() -> u16 {
    0x00
}

/// Renders `KeyCode(code)` with evdev's `Debug` impl. evdev writes the name
/// of the first constant with that code, or `unknown key: ` and the number;
/// as names are unique and `FromStr` looks a name up in the same table, a
/// text that parses at all parses back to `code`.
#[verifier::external_body]
fn evdev_key_debug(code: u16) -> (text: String)
    ensures
        text@ == key_code_name(code),
        key_code_from_name(text@) is Some ==> key_code_from_name(text@) == Some(code),
{
    format!("{:?}", evdev::KeyCode::new(code))
}

/// Parses a key name with evdev's `FromStr` impl of `KeyCode` and keeps its code.
#[verifier::external_body]
fn evdev_key_from_str(name: &str) -> (code: Option<u16>)
    ensures
        code == key_code_from_name(name@),
{
    match name.parse::<evdev::KeyCode>() {
        Ok(key) => Some(key.code()),
        Err(_) => None,
    }
}

/// The code of evdev's `KeyCode::BTN_LEFT`, 0x110 in its source.
#[verifier::external_body]
fn evdev_btn_left() -> (code: u16)
    ensures
        code == btn_left_spec(),
{
    evdev::KeyCode::BTN_LEFT.code()
}

/// The code of evdev's `KeyCode::BTN_EXTRA`, 0x114 in its source.
#[verifier::external_body]
fn evdev_btn_extra() -> (code: u16)
    ensures
        code == btn_extra_spec(),
{
    evdev::KeyCode::BTN_EXTRA.code()
}

/// The number of evdev's `EventType::KEY`, 0x01 in its source.
#[verifier::external_body]
fn evdev_ev_key() -> (t: u16)
    ensures
        t == ev_key_spec(),
{
    evdev::EventType::KEY.0
}

/// The number of evdev's `EventType::SYNCHRONIZATION`, 0x00 in its source.
#[verifier::external_body]
fn evdev_ev_syn() -> (t: u16)
    ensures
        t == ev_syn_spec(),
{
    evdev::EventType::SYNCHRONIZATION.0
}

/// The name of a key, as the activation-key button shows it and as the
/// configuration file stores it. A name that reads back as a key reads back
/// as this key.
pub fn key_name(code: u16) -> (text: String)
    ensures
        text@ == key_code_name(code),
        key_code_from_name(text@) is Some ==> key_code_from_name(text@) == Some(code),
{
    evdev_key_debug(code)
}

/// The key a name stands for, if it names one.
pub fn key_from_name(name: &str) -> (code: Option<u16>)
    ensures
        code == key_code_from_name(name@),
{
    evdev_key_from_str(name)
}

/// The button the virtual mouse has and clicks: the left button.
pub fn left_button() -> (code: u16)
    ensures
        code == btn_left_spec(),
{
    evdev_btn_left()
}

/// The activation key of a configuration that names none: the extra mouse button.
pub fn default_hotkey() -> (code: u16)
    ensures
        code == btn_extra_spec(),
{
    evdev_btn_extra()
}

/// One input event as the kernel takes it: type, code and value.
#[derive(Clone, Copy, Debug, PartialEq, Eq, Structural)]
pub struct RawEvent {
    pub event_type: u16,
    pub code: u16,
    pub value: i32,
}

/// The two reports of one left click: the button goes down, then up, each
/// report closed by a synchronization event.
pub fn left_click_events() -> (reports: [[RawEvent; 2]; 2])
    ensures
        reports[0][0] == (RawEvent { event_type: ev_key_spec(), code: btn_left_spec(), value: 1 }),
        reports[0][1] == (RawEvent { event_type: ev_syn_spec(), code: 0, value: 0 }),
        reports[1][0] == (RawEvent { event_type: ev_key_spec(), code: btn_left_spec(), value: 0 }),
        reports[1][1] == (RawEvent { event_type: ev_syn_spec(), code: 0, value: 0 }),
{
    let key = evdev_ev_key();
    let syn = evdev_ev_syn();
    let left = evdev_btn_left();
    let sync = RawEvent { event_type: syn, code: 0, value: 0 };
    let press = [RawEvent { event_type: key, code: left, value: 1 }, sync];
    let release = [RawEvent { event_type: key, code: left, value: 0 }, sync];
    [press, release]
}

} // verus!
