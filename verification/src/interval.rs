//! A span of time held as whole seconds and the nanoseconds beyond them,
//! the way the clicker stores its click interval.

use vstd::prelude::*;

verus! {

/// Nanoseconds in one millisecond.
pub const NANOS_PER_MILLI: u32 = 1_000_000;

/// Nanoseconds in one second.
pub const NANOS_PER_SEC: u32 = 1_000_000_000;

/// Seconds in one minute.
pub const SECS_PER_MINUTE: u64 = 60;

/// Seconds in one hour.
pub const SECS_PER_HOUR: u64 = 3600;

/// The longest span an `Interval` can hold, in nanoseconds.
pub open spec fn max_span() -> nat {
    u64::MAX as nat * 1_000_000_000 + 999_999_999
}

/// `n` nanoseconds cut down to whole milliseconds.
pub open spec fn whole_millis(n: nat) -> nat {
    (n - n % 1_000_000) as nat
}

/// The total length, in nanoseconds, of four spans.
pub open spec fn total_span(parts: [Interval; 4]) -> nat {
    parts[0]@ + parts[1]@ + parts[2]@ + parts[3]@
}

/// The text humantime's `format_duration` writes for a span of `span` nanoseconds.
pub uninterp spec fn humantime_text(span: nat) -> Seq<char>;

/// The span the clicker waits between clicks when the shared interval holds
/// `millis` milliseconds: never less than one millisecond.
pub open spec fn click_delay_span(millis: nat) -> nat {
    if millis == 0 { 1_000_000 } else { millis * 1_000_000 }
}

/// A non-negative span of time. Its view is its length in nanoseconds.
#[derive(Clone, Copy, Debug, PartialEq, Eq, Structural)]
pub struct Interval {
    secs: u64,
    nanos: u32,
}

impl View for Interval {
    type V = nat;

    closed spec fn view(&self) -> nat {
        self.secs as nat * 1_000_000_000 + self.nanos as nat
    }
}

impl Interval {
    #[verifier::type_invariant]
    spec fn inv(self) -> bool {
        self.nanos < 1_000_000_000
    }

    /// The span of `secs` seconds and `nanos` nanoseconds.
    pub fn from_secs_nanos(secs: u64, nanos: u32) -> (r: Interval)
        requires
            nanos < NANOS_PER_SEC,
        ensures
            r@ == secs as nat * 1_000_000_000 + nanos as nat,
    {
        Interval { secs, nanos }
    }

    /// Whole seconds of the span.
    pub fn as_secs(&self) -> (r: u64)
        ensures
            r == self@ / 1_000_000_000,
    {
        proof {
            use_type_invariant(self);
        }
        self.secs
    }

    /// Nanoseconds beyond the whole seconds.
    pub fn subsec_nanos(&self) -> (r: u32)
        ensures
            r == self@ % 1_000_000_000,
    {
        proof {
            use_type_invariant(self);
        }
        self.nanos
    }

    /// Whole milliseconds beyond the whole seconds.
    pub fn subsec_millis(&self) -> (r: u32)
        ensures
            r == (self@ % 1_000_000_000) / 1_000_000,
    {
        proof {
            use_type_invariant(self);
        }
        self.nanos / NANOS_PER_MILLI
    }

    /// The empty span.
    pub fn zero() -> (r: Interval)
        ensures
            r@ == 0,
    {
        Interval { secs: 0, nanos: 0 }
    }

    /// A span of `millis` milliseconds.
    pub fn from_millis(millis: u64) -> (r: Interval)
        ensures
            r@ == millis as nat * 1_000_000,
    {
        let secs = millis / 1000;
        let rest = (millis % 1000) as u32;
        Interval { secs, nanos: rest * NANOS_PER_MILLI }
    }

    /// A span of `secs` seconds.
    pub fn from_secs(secs: u64) -> (r: Interval)
        ensures
            r@ == secs as nat * 1_000_000_000,
    {
        Interval { secs, nanos: 0 }
    }

    /// A span of `mins` minutes; the count of seconds must fit in a `u64`.
    pub fn from_mins(mins: u64) -> (r: Interval)
        requires
            mins * SECS_PER_MINUTE <= u64::MAX,
        ensures
            r@ == mins as nat * 60_000_000_000,
    {
        Interval { secs: mins * SECS_PER_MINUTE, nanos: 0 }
    }

    /// A span of `hours` hours; the count of seconds must fit in a `u64`.
    pub fn from_hours(hours: u64) -> (r: Interval)
        requires
            hours * SECS_PER_HOUR <= u64::MAX,
        ensures
            r@ == hours as nat * 3_600_000_000_000,
    {
        Interval { secs: hours * SECS_PER_HOUR, nanos: 0 }
    }

    /// The sum of two spans, or `None` when it is longer than an `Interval` holds.
    pub fn checked_add(&self, other: &Interval) -> (r: Option<Interval>)
        ensures
            r is Some <==> self@ + other@ <= max_span(),
            r is Some ==> r->0@ == self@ + other@,
    {
        proof {
            use_type_invariant(self);
            use_type_invariant(other);
        }
        let nanos_sum = self.nanos + other.nanos;
        let (carry, nanos) = if nanos_sum >= NANOS_PER_SEC {
            (1u64, nanos_sum - NANOS_PER_SEC)
        } else {
            (0u64, nanos_sum)
        };
        match self.secs.checked_add(other.secs) {
            Some(secs) => match secs.checked_add(carry) {
                Some(secs) => Some(Interval { secs, nanos }),
                None => None,
            },
            None => None,
        }
    }

    /// The longer of two spans.
    pub fn max(self, other: Interval) -> (r: Interval)
        ensures
            r@ == if self@ <= other@ { other@ } else { self@ },
    {
        proof {
            use_type_invariant(&self);
            use_type_invariant(&other);
        }
        if self.secs < other.secs || (self.secs == other.secs && self.nanos <= other.nanos) {
            other
        } else {
            self
        }
    }

    /// Whole milliseconds of the span, wrapped to 64 bits.
    pub fn as_millis_u64(&self) -> (r: u64)
        ensures
            r as nat == (self@ / 1_000_000) % 0x1_0000_0000_0000_0000,
    {
        proof {
            use_type_invariant(self);
        }
        let millis: u128 = self.secs as u128 * 1000 + (self.nanos / NANOS_PER_MILLI) as u128;
        proof {
            assert(millis as u64 == millis % 0x1_0000_0000_0000_0000) by (bit_vector);
        }
        millis as u64
    }

    /// The span as humantime writes it, such as `2h 37m` or `32ms`.
    pub fn format(&self) -> (text: String)
        ensures
            text@ == humantime_text(self@),
    {
        humantime_format(*self)
    }
}

/// Calls humantime's `format_duration` on the span and renders it with its
/// `Display` impl. The contract says only that the text is humantime's
/// rendering of this span, a function of the span alone.
#[verifier::external_body]
fn humantime_format(span: Interval) -> (text: String)
    ensures
        text@ == humantime_text(span@),
{
    humantime::format_duration(std::time::Duration::new(span.secs, span.nanos)).to_string()
}

/// Sum of the four parts of a click interval, or `None` when the sum is
/// longer than an `Interval` holds.
pub fn sum_parts(parts: &[Interval; 4]) -> (r: Option<Interval>)
    ensures
        r is Some <==> total_span(*parts) <= max_span(),
        r is Some ==> r->0@ == total_span(*parts),
{
    let mut total = Interval::zero();
    let mut i: usize = 0;
    while i < 4
        invariant
            0 <= i <= 4,
            total@ == partial_span(*parts, i as int),
        decreases 4 - i,
    {
        match total.checked_add(&parts[i]) {
            Some(next) => {
                total = next;
            },
            None => {
                proof {
                    lemma_partial_span_grows(*parts, i as int + 1);
                }
                return None;
            },
        }
        i = i + 1;
    }
    proof {
        use_type_invariant(&total);
        reveal_with_fuel(partial_span, 5);
    }
    Some(total)
}

/// Length of the first `k` of four spans.
pub open spec fn partial_span(parts: [Interval; 4], k: int) -> nat
    decreases k,
{
    if k <= 0 {
        0
    } else {
        partial_span(parts, k - 1) + parts[k - 1]@
    }
}

/// The first `k` spans are never longer than all four.
proof fn lemma_partial_span_grows(parts: [Interval; 4], k: int)
    requires
        0 <= k <= 4,
    ensures
        partial_span(parts, k) <= total_span(parts),
    decreases 4 - k,
{
    reveal_with_fuel(partial_span, 5);
    if k < 4 {
        lemma_partial_span_grows(parts, k + 1);
    }
}

/// The shortest click interval the clicker uses: one millisecond.
pub fn min_duration() -> (r: Interval)
    ensures
        r@ == 1_000_000,
{
    Interval::from_millis(1)
}

/// The click interval of a configuration that names none: 15 ms.
pub fn default_interval() -> (r: Interval)
    ensures
        r@ == 15_000_000,
{
    Interval::from_millis(15)
}

/// The span to wait after a click when the shared interval holds `millis`
/// milliseconds: that many milliseconds, but at least one.
pub fn click_delay(millis: u64) -> (r: Interval)
    ensures
        r@ == click_delay_span(millis as nat),
{
    Interval::from_millis(millis).max(min_duration())
}

} // verus!
