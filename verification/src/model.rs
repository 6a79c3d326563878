//! The settings the window edits: the four parts of the click interval, the
//! mode, the activation key, and when the configuration is written out.

use crate::context::AppContext;
use crate::interval::{
    humantime_text, max_span, min_duration, sum_parts, total_span, whole_millis, Interval,
    SECS_PER_HOUR, SECS_PER_MINUTE,
};
use crate::keys::{key_code_name, key_name};
use crate::system::{system_inv, SystemView};
use vstd::arithmetic::div_mod::{lemma_fundamental_div_mod, lemma_mod_multiples_vanish};
use vstd::prelude::*;

verus! {

/// The unit of one of the four parts of the click interval.
#[derive(Clone, Copy, Debug, PartialEq, Eq, Structural)]
pub enum AppDuration {
    Milliseconds,
    Seconds,
    Minutes,
    Hours,
}

impl AppDuration {
    /// Position of this part among the four.
    pub open spec fn slot(self) -> int {
        match self {
            AppDuration::Milliseconds => 0,
            AppDuration::Seconds => 1,
            AppDuration::Minutes => 2,
            AppDuration::Hours => 3,
        }
    }

    /// Position of this part among the four.
    pub fn index(&self) -> (i: usize)
        ensures
            i == self.slot(),
    {
        match self {
            AppDuration::Milliseconds => 0,
            AppDuration::Seconds => 1,
            AppDuration::Minutes => 2,
            AppDuration::Hours => 3,
        }
    }
}

/// What the window is told.
#[derive(Clone, Copy, Debug, PartialEq, Eq, Structural)]
pub enum AppMessages {
    /// The activation-key button was clicked: the next key pressed becomes the hotkey.
    CaptureBegin,
    /// The hotkey changed whether clicking goes on.
    ClickingBegin,
    /// A key was captured as the new hotkey.
    CaptureEnd(u16),
    /// The clicking loop stopped.
    ClickingEnd,
    /// The mode was chosen: toggle (`true`) or hold (`false`).
    Toggle(bool),
    /// One part of the click interval was set.
    DurationChanged(AppDuration, Interval),
}

/// Paths of the input devices the clicker listens to.
#[derive(Debug)]
pub struct Devices {
    pub mouse: String,
    pub keyboard: String,
}

/// The configuration file's contents.
#[derive(Debug)]
pub struct Config {
    pub interval: Interval,
    pub hotkey: u16,
    pub toggle: bool,
    pub devices: Devices,
}

/// A configuration seen as plain values.
pub struct ConfigView {
    pub interval: nat,
    pub hotkey: u16,
    pub toggle: bool,
    pub mouse: Seq<char>,
    pub keyboard: Seq<char>,
}

impl View for Config {
    type V = ConfigView;

    open spec fn view(&self) -> ConfigView {
        ConfigView {
            interval: self.interval@,
            hotkey: self.hotkey,
            toggle: self.toggle,
            mouse: self.devices.mouse@,
            keyboard: self.devices.keyboard@,
        }
    }
}

/// The window's state.
pub struct AppModel {
    /// The parts of the click interval, in the order of `AppDuration`.
    pub durations: [Interval; 4],
    /// Whether the window waits for a key to become the hotkey.
    pub capturing: bool,
    /// Whether the clicking loop runs.
    pub is_clicking: bool,
    pub config: Config,
    /// Whether the configuration changed since it was last written.
    pub dirty: bool,
}

/// The window's state seen as plain values; the parts are lengths in nanoseconds.
pub struct AppModelView {
    pub parts: Seq<nat>,
    pub capturing: bool,
    pub is_clicking: bool,
    pub config: ConfigView,
    pub dirty: bool,
}

impl View for AppModel {
    type V = AppModelView;

    open spec fn view(&self) -> AppModelView {
        AppModelView {
            parts: self.durations@.map_values(|d: Interval| d@),
            capturing: self.capturing,
            is_clicking: self.is_clicking,
            config: self.config@,
            dirty: self.dirty,
        }
    }
}

/// What the caller of `update` has to do afterwards.
#[derive(Clone, Copy, Debug, PartialEq, Eq, Structural)]
pub enum UpdateEffect {
    Nothing,
    /// Write the configuration out.
    WriteConfig,
    /// Wake the clicking loop.
    StartClicking,
}

/// Total length of four parts.
pub open spec fn parts_total(parts: Seq<nat>) -> nat {
    parts[0] + parts[1] + parts[2] + parts[3]
}

/// The click interval four parts make: their sum, but at least one millisecond.
pub open spec fn effective_span(parts: Seq<nat>) -> nat {
    let total = parts_total(parts);
    if total < 1_000_000 { 1_000_000 } else { total }
}

/// Whole milliseconds of a span, wrapped to 64 bits as the shared interval holds them.
pub open spec fn shared_millis(span: nat) -> nat {
    (span / 1_000_000) % 0x1_0000_0000_0000_0000
}

/// The four parts a configured interval of `n` nanoseconds is shown as:
/// its milliseconds, seconds, minutes and hours.
pub open spec fn split_span(n: nat) -> Seq<nat> {
    let secs = n / 1_000_000_000;
    seq![
        (n % 1_000_000_000) / 1_000_000 * 1_000_000,
        secs % 60 * 1_000_000_000,
        secs % 3600 / 60 * 60_000_000_000,
        secs / 3600 * 3_600_000_000_000,
    ]
}

/// The shared state agrees with the window: the same mode, and the interval
/// the four parts make, in milliseconds.
pub open spec fn in_sync(m: AppModelView, cx: AppContext) -> bool {
    &&& cx.toggle == m.config.toggle
    &&& cx.duration as nat == shared_millis(effective_span(m.parts))
}

/// Whether `update` can take a message: a new part must keep the sum of the
/// parts within what an `Interval` holds.
pub open spec fn accepts(m: AppModelView, msg: AppMessages) -> bool {
    match msg {
        AppMessages::DurationChanged(which, d) => parts_total(m.parts.update(which.slot(), d@)) <= max_span(),
        _ => true,
    }
}

/// What a message does to the window and the shared state, and what the
/// caller has to do afterwards. A changed setting is marked unsaved and the
/// caller is asked to write the configuration out at once.
pub open spec fn update_spec(m: AppModelView, cx: AppContext, msg: AppMessages) -> (AppModelView, AppContext, UpdateEffect) {
    match msg {
        AppMessages::CaptureBegin => (
            AppModelView { capturing: true, ..m },
            AppContext { capturing: true, ..cx },
            UpdateEffect::Nothing,
        ),
        AppMessages::Toggle(value) => (
            AppModelView { config: ConfigView { toggle: value, ..m.config }, dirty: true, ..m },
            AppContext { toggle: value, ..cx },
            UpdateEffect::WriteConfig,
        ),
        AppMessages::CaptureEnd(key) => (
            AppModelView { capturing: false, config: ConfigView { hotkey: key, ..m.config }, dirty: true, ..m },
            cx,
            UpdateEffect::WriteConfig,
        ),
        AppMessages::ClickingBegin => if cx.keep_clicking {
            (AppModelView { is_clicking: true, ..m }, cx, UpdateEffect::StartClicking)
        } else {
            (m, cx, UpdateEffect::Nothing)
        },
        AppMessages::ClickingEnd => (AppModelView { is_clicking: false, ..m }, cx, UpdateEffect::Nothing),
        AppMessages::DurationChanged(which, d) => {
            let parts = m.parts.update(which.slot(), d@);
            let span = effective_span(parts);
            (
                AppModelView { parts, config: ConfigView { interval: span, ..m.config }, dirty: true, ..m },
                AppContext { duration: shared_millis(span) as u64, ..cx },
                UpdateEffect::WriteConfig,
            )
        },
    }
}

/// The window after a write of the configuration was tried: the unsaved
/// mark is cleared only when the write succeeded.
pub open spec fn finish_save_spec(m: AppModelView, written: bool) -> AppModelView {
    AppModelView { dirty: m.dirty && !written, ..m }
}

/// Label of the activation-key button text: a prompt while capturing,
/// otherwise the key's name.
pub open spec fn key_label_text(m: AppModelView) -> Seq<char> {
    if m.capturing {
        "Press any key..."@
    } else {
        key_code_name(m.config.hotkey)
    }
}

/// The parts of a span add up to the span cut down to whole milliseconds,
/// and each part stays below the next unit: under a second of milliseconds,
/// under a minute of seconds, under an hour of minutes.
pub proof fn lemma_split_span(n: nat)
    ensures
        split_span(n).len() == 4,
        parts_total(split_span(n)) == whole_millis(n),
        split_span(n)[0] < 1_000_000_000,
        split_span(n)[1] < 60_000_000_000,
        split_span(n)[2] < 3_600_000_000_000,
        split_span(n)[0] % 1_000_000 == 0,
{
    let secs = n / 1_000_000_000;
    let sub = n % 1_000_000_000;
    lemma_fundamental_div_mod(n as int, 1_000_000_000);
    lemma_fundamental_div_mod(sub as int, 1_000_000);
    lemma_mod_multiples_vanish((secs * 1000) as int, sub as int, 1_000_000);
    assert(n % 1_000_000 == sub % 1_000_000);
    lemma_fundamental_div_mod(secs as int, 3600);
    lemma_fundamental_div_mod((secs % 3600) as int, 60);
    lemma_mod_multiples_vanish((60 * (secs / 3600)) as int, (secs % 3600) as int, 60);
    assert(secs % 3600 % 60 == secs % 60);
}

impl AppModel {
    /// The window's first state and the shared state for a configuration:
    /// the configured interval shown as its four parts, nothing being
    /// captured or clicked, and the interval the parts make shared in
    /// milliseconds. The running clicker starts where `system_inv` holds.
    pub fn init(config: Config) -> (res: (AppModel, AppContext))
        ensures
            res.0@.parts =~= split_span(config@.interval),
            res.0@.capturing == false,
            res.0@.is_clicking == false,
            res.0@.config == config@,
            res.0@.dirty == false,
            res.1 == (AppContext {
                toggle: config.toggle,
                keep_clicking: false,
                captured_input: config.hotkey,
                capturing: false,
                duration: shared_millis(effective_span(split_span(config@.interval))) as u64,
            }),
            in_sync(res.0@, res.1),
            system_inv(SystemView { model: res.0@, cx: res.1, pending: Seq::empty() }),
    {
        let total_secs = config.interval.as_secs();
        let hours = total_secs / SECS_PER_HOUR;
        let minutes = (total_secs % SECS_PER_HOUR) / SECS_PER_MINUTE;
        let seconds = total_secs % SECS_PER_MINUTE;
        let milliseconds = config.interval.subsec_millis() as u64;
        proof {
            assert(hours * 3600 <= total_secs) by (nonlinear_arith)
                requires
                    hours == total_secs / 3600,
            ;
            assert(minutes * 60 <= total_secs) by (nonlinear_arith)
                requires
                    minutes == (total_secs % 3600) / 60,
            ;
        }
        let durations = [
            Interval::from_millis(milliseconds),
            Interval::from_secs(seconds),
            Interval::from_mins(minutes),
            Interval::from_hours(hours),
        ];
        let ghost n = config@.interval;
        proof {
            lemma_split_span(n);
            assert(durations@.map_values(|d: Interval| d@) =~= split_span(n));
        }
        let total = sum_parts(&durations).unwrap();
        let duration = total.max(min_duration());
        let cx = AppContext {
            toggle: config.toggle,
            keep_clicking: false,
            captured_input: config.hotkey,
            capturing: false,
            duration: duration.as_millis_u64(),
        };
        let model = AppModel { durations, capturing: false, is_clicking: false, config, dirty: false };
        (model, cx)
    }

    /// Whether the configuration has to be written out: it changed since it
    /// was last written.
    pub fn save_config(&self) -> (write: bool)
        ensures
            write == self.dirty,
    {
        self.dirty
    }

    /// Records the outcome of writing the configuration out: the unsaved
    /// mark is cleared only when the write succeeded.
    pub fn finish_save(&mut self, written: bool)
        ensures
            final(self)@ == finish_save_spec(old(self)@, written),
    {
        if written {
            self.dirty = false;
        }
    }

    /// Applies a message to the window and the shared state; the returned
    /// effect says what the caller has to do next. A changed setting is
    /// marked unsaved and the caller is asked to write it out at once.
    pub fn update(&mut self, cx: &mut AppContext, message: AppMessages) -> (effect: UpdateEffect)
        requires
            accepts(old(self)@, message),
        ensures
            (final(self)@, *final(cx), effect) == update_spec(old(self)@, *old(cx), message),
    {
        match message {
            AppMessages::CaptureBegin => {
                self.capturing = true;
                cx.capturing = true;
                UpdateEffect::Nothing
            },
            AppMessages::Toggle(value) => {
                cx.toggle = value;
                self.config.toggle = value;
                self.dirty = true;
                UpdateEffect::WriteConfig
            },
            AppMessages::CaptureEnd(key) => {
                self.capturing = false;
                self.config.hotkey = key;
                self.dirty = true;
                UpdateEffect::WriteConfig
            },
            AppMessages::ClickingBegin => {
                if cx.keep_clicking {
                    self.is_clicking = true;
                    UpdateEffect::StartClicking
                } else {
                    UpdateEffect::Nothing
                }
            },
            AppMessages::ClickingEnd => {
                self.is_clicking = false;
                UpdateEffect::Nothing
            },
            AppMessages::DurationChanged(which, part) => {
                let ghost before = self@;
                self.durations[which.index()] = part;
                proof {
                    assert(self@.parts =~= before.parts.update(which.slot(), part@));
                    assert(total_span(self.durations) == parts_total(self@.parts));
                }
                let total = sum_parts(&self.durations).unwrap();
                let duration = total.max(min_duration());
                cx.duration = duration.as_millis_u64();
                self.config.interval = duration;
                self.dirty = true;
                UpdateEffect::WriteConfig
            },
        }
    }

    /// Whether `update` can take the message: a new part must keep the sum of
    /// the parts within what an `Interval` holds.
    pub fn accepts(&self, message: &AppMessages) -> (r: bool)
        ensures
            r == accepts(self@, *message),
    {
        match message {
            AppMessages::DurationChanged(which, part) => {
                let mut parts = self.durations;
                parts[which.index()] = *part;
                proof {
                    assert(parts@.map_values(|d: Interval| d@) =~= self@.parts.update(which.slot(), part@));
                }
                sum_parts(&parts).is_some()
            },
            _ => true,
        }
    }

    /// Text of the activation-key button: a prompt while capturing,
    /// otherwise the name of the hotkey.
    pub fn key_label(&self) -> (label: String)
        ensures
            label@ == key_label_text(self@),
    {
        if self.capturing {
            String::from_str("Press any key...")
        } else {
            key_name(self.config.hotkey)
        }
    }

    /// Markup of the heading that shows the configured click interval.
    pub fn interval_label(&self) -> (markup: String)
        ensures
            markup@ == "<b>Click Interval: "@ + humantime_text(self@.config.interval) + "</b>"@,
    {
        let mut markup = String::from_str("<b>Click Interval: ");
        let text = self.config.interval.format();
        markup.append(text.as_str());
        markup.append("</b>");
        markup
    }

    /// Whether the window takes clicks: not while capturing or clicking.
    pub fn can_target(&self) -> (r: bool)
        ensures
            r == !(self.capturing || self.is_clicking),
    {
        !(self.capturing || self.is_clicking)
    }
}

} // verus!
