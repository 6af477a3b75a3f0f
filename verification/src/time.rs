//! Wall-clock instants and spans of time as plain integers.

use vstd::prelude::*;

verus! {

/// Nanoseconds in one second.
pub const NANOS_PER_SEC: u32 = 1_000_000_000;

/// A length of time, counted in nanoseconds.
#[derive(Clone, Copy, Debug, PartialEq, Eq, Structural)]
pub struct TimeSpan {
    pub nanos: u128,
}

/// An instant on the UTC time line, counted in nanoseconds since the Unix
/// epoch; instants before the epoch are negative.
#[derive(Clone, Copy, Debug, PartialEq, Eq, Structural)]
pub struct UtcTime {
    pub nanos: i128,
}

/// The span between `from` and `to`, and nothing if `to` is not later.
pub open spec fn span_between(from: int, to: int) -> int {
    if to > from {
        to - from
    } else {
        0
    }
}

/// The longest span that `std::time::Duration` can hold, in nanoseconds.
pub open spec fn longest_duration() -> int {
    u64::MAX * 1_000_000_000 + 999_999_999
}

impl TimeSpan {
    /// Whether the span is one that `std::time::Duration` can hold.
    pub open spec fn fits_duration(self) -> bool {
        self.nanos <= longest_duration()
    }

    /// The empty span.
    pub fn zero() -> (span: TimeSpan)
        ensures
            span.nanos == 0,
    {
        TimeSpan { nanos: 0 }
    }

    /// The span of `secs` whole seconds followed by `subsec_nanos`
    /// nanoseconds.
    pub fn from_parts(secs: u64, subsec_nanos: u32) -> (span: TimeSpan)
        ensures
            span.nanos == secs * 1_000_000_000 + subsec_nanos,
            subsec_nanos < NANOS_PER_SEC ==> span.fits_duration(),
    {
        let whole: u128 = secs as u128 * 1_000_000_000u128;
        TimeSpan { nanos: whole + subsec_nanos as u128 }
    }

    /// The span of `secs` whole seconds.
    pub fn from_secs(secs: u64) -> (span: TimeSpan)
        ensures
            span.nanos == secs * 1_000_000_000,
            span.fits_duration(),
    {
        TimeSpan::from_parts(secs, 0)
    }

    /// The sum of two spans, held at the longest span that
    /// `std::time::Duration` can hold where it would pass that.
    pub fn saturating_add(self, other: TimeSpan) -> (sum: TimeSpan)
        ensures
            sum.nanos == if self.nanos + other.nanos <= longest_duration() {
                self.nanos + other.nanos
            } else {
                longest_duration()
            },
            sum.fits_duration(),
    {
        let longest: u128 = u64::MAX as u128 * 1_000_000_000u128 + 999_999_999u128;
        if self.nanos <= longest && other.nanos <= longest - self.nanos {
            TimeSpan { nanos: self.nanos + other.nanos }
        } else {
            TimeSpan { nanos: longest }
        }
    }

    /// The whole seconds of the span, where they fit in 64 bits.
    pub fn whole_secs(self) -> (secs: Option<u64>)
        ensures
            secs == if self.nanos / 1_000_000_000 <= u64::MAX {
                Some((self.nanos / 1_000_000_000) as u64)
            } else {
                None::<u64>
            },
    {
        let secs: u128 = self.nanos / 1_000_000_000u128;
        if secs <= u64::MAX as u128 {
            Some(secs as u64)
        } else {
            None
        }
    }

    /// The nanoseconds of the span beyond its whole seconds.
    pub fn subsec_nanos(self) -> (nanos: u32)
        ensures
            nanos == self.nanos % 1_000_000_000,
    {
        (self.nanos % 1_000_000_000u128) as u32
    }
}

/// Reads the system clock through `chrono::Utc::now` and hands back the
/// whole seconds since the epoch and the nanoseconds beyond them. Nothing
/// is claimed of the reading.
#[verifier::external_body]
fn clock_reading() -> (parts: (i64, u32)) {
    let now = chrono::Utc::now();
    (now.timestamp(), now.timestamp_subsec_nanos())
}

/// The earliest instant that the clock can report, in nanoseconds.
pub open spec fn earliest_reading() -> int {
    i64::MIN * 1_000_000_000
}

/// The latest instant that the clock can report, in nanoseconds.
pub open spec fn latest_reading() -> int {
    i64::MAX * 1_000_000_000 + u32::MAX
}

impl UtcTime {
    /// Whether the instant is one that the clock can report.
    pub open spec fn is_reading(self) -> bool {
        earliest_reading() <= self.nanos <= latest_reading()
    }

    /// The present instant by the system clock.
    pub fn now() -> (time: UtcTime)
        ensures
            time.is_reading(),
    {
        let (secs, subsec_nanos) = clock_reading();
        UtcTime::from_parts(secs, subsec_nanos)
    }

    /// The instant `secs` seconds and `subsec_nanos` nanoseconds after the
    /// epoch.
    pub fn from_parts(secs: i64, subsec_nanos: u32) -> (time: UtcTime)
        ensures
            time.nanos == secs * 1_000_000_000 + subsec_nanos,
            time.is_reading(),
    {
        let whole: i128 = secs as i128 * 1_000_000_000i128;
        UtcTime { nanos: whole + subsec_nanos as i128 }
    }

    /// The instant that lies `span` after this one.
    pub fn plus(self, span: TimeSpan) -> (later: UtcTime)
        requires
            self.nanos + span.nanos <= i128::MAX,
        ensures
            later.nanos == self.nanos + span.nanos,
    {
        if self.nanos >= 0 {
            UtcTime { nanos: self.nanos + span.nanos as i128 }
        } else {
            // self < 0: add in two steps so that no step leaves the range.
            let up_to_zero: u128 = (-(self.nanos + 1)) as u128 + 1;
            if span.nanos >= up_to_zero {
                UtcTime { nanos: (span.nanos - up_to_zero) as i128 }
            } else {
                UtcTime { nanos: self.nanos + span.nanos as i128 }
            }
        }
    }

    /// How long it is from this instant until `later`; zero if `later` is
    /// not in the future of this instant.
    pub fn until(self, later: UtcTime) -> (span: TimeSpan)
        ensures
            span.nanos == span_between(self.nanos as int, later.nanos as int),
    {
        if later.nanos <= self.nanos {
            TimeSpan { nanos: 0 }
        } else if self.nanos >= 0 || later.nanos < 0 {
            TimeSpan { nanos: (later.nanos - self.nanos) as u128 }
        } else {
            let below: u128 = (-(self.nanos + 1)) as u128 + 1;
            TimeSpan { nanos: later.nanos as u128 + below }
        }
    }

    /// Whole seconds since the epoch, rounded towards the past, where they
    /// fit in 64 bits.
    pub fn whole_secs(self) -> (secs: Option<i64>)
        ensures
            secs == if i64::MIN <= self.nanos / 1_000_000_000 <= i64::MAX {
                Some((self.nanos / 1_000_000_000) as i64)
            } else {
                None::<i64>
            },
    {
        let rem: i128 = self.nanos % 1_000_000_000i128;
        let quot: i128 = self.nanos / 1_000_000_000i128;
        let floor: i128 = if rem < 0 { quot - 1 } else { quot };
        if floor >= i64::MIN as i128 && floor <= i64::MAX as i128 {
            Some(floor as i64)
        } else {
            None
        }
    }

    /// Nanoseconds since the last whole second.
    pub fn subsec_nanos(self) -> (nanos: u32)
        ensures
            nanos == self.nanos % 1_000_000_000,
    {
        let rem: i128 = self.nanos % 1_000_000_000i128;
        if rem < 0 {
            (rem + 1_000_000_000i128) as u32
        } else {
            rem as u32
        }
    }
}

/// An instant is made up of its whole seconds and of the nanoseconds
/// beyond them, and of nothing else: whoever takes an instant apart into
/// these two and puts them together again has the same instant, to the
/// nanosecond.
pub proof fn instant_is_its_parts(time: UtcTime)
    ensures
        0 <= time.nanos % 1_000_000_000 < 1_000_000_000,
        (time.nanos / 1_000_000_000) * 1_000_000_000 + time.nanos % 1_000_000_000 == time.nanos,
{
    vstd::arithmetic::div_mod::lemma_fundamental_div_mod(time.nanos as int, 1_000_000_000);
    vstd::arithmetic::div_mod::lemma_mod_bound(time.nanos as int, 1_000_000_000);
}

} // verus!
