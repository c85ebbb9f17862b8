//! Plain-value models of wall-clock instants and of durations.

use chrono::Datelike;
use chrono::Timelike;
use vstd::prelude::*;

verus! {

/// Nanoseconds in one second.
pub const NANOS_PER_SEC: u32 = 1_000_000_000;

/// Nanoseconds in one millisecond.
pub const NANOS_PER_MILLI: u32 = 1_000_000;

/// Milliseconds in one second.
pub const MILLIS_PER_SEC: u64 = 1_000;

/// A local wall-clock instant: the calendar date and time of day that a
/// clock showed, together with the absolute position of that instant in
/// milliseconds since the Unix epoch.
#[derive(Clone, Copy, Debug, PartialEq, Eq, Structural)]
pub struct Moment {
    pub stamp_millis: i64,
    pub year: i32,
    pub month: u32,
    pub day: u32,
    pub hour: u32,
    pub minute: u32,
    pub second: u32,
}

impl Moment {
    /// The calendar and time-of-day fields are in their natural ranges.
    pub open spec fn wf(&self) -> bool {
        &&& 1 <= self.month <= 12
        &&& 1 <= self.day <= 31
        &&& self.hour < 24
        &&& self.minute < 60
        &&& self.second < 60
    }

    /// The time of day as (hour, minute, second), without any date.
    pub open spec fn time_of_day(&self) -> (u32, u32, u32) {
        (self.hour, self.minute, self.second)
    }

    /// Whether two instants show the same hour, minute and second. Their
    /// dates and absolute positions play no part.
    pub open spec fn same_time_of_day(&self, other: &Moment) -> bool {
        self.time_of_day() == other.time_of_day()
    }

    /// Whether the instant falls in the minute `hour`:`minute` of some day.
    pub open spec fn in_minute(&self, hour: u32, minute: u32) -> bool {
        self.hour == hour && self.minute == minute
    }

    /// Compares hour, minute and second of two instants.
    pub fn matches_time_of_day(&self, other: &Moment) -> (same: bool)
        ensures
            same == self.same_time_of_day(other),
    {
        self.hour == other.hour && self.minute == other.minute && self.second == other.second
    }

    /// Tells whether the instant's hour and minute are the given ones.
    pub fn is_in_minute(&self, hour: u32, minute: u32) -> (inside: bool)
        ensures
            inside == self.in_minute(hour, minute),
    {
        self.hour == hour && self.minute == minute
    }
}

/// Reads the local clock through `chrono::Local::now` and copies out the
/// fields of the `DateTime<Local>` it returns, each through chrono's own
/// accessor (`timestamp_millis`, `year`, `month`, `day`, `hour`, `minute`,
/// `second`).
///
/// Nothing is claimed about which instant comes back. The only claim is the
/// range of each calendar field, as chrono documents it for `Datelike` and
/// `Timelike`: month 1 to 12, day 1 to 31, hour 0 to 23, minute and second
/// 0 to 59.
#[verifier::external_body]
pub(crate) fn local_now() -> (now: Moment)
    ensures
        now.wf(),
{
    let t = chrono::Local::now();
    Moment {
        stamp_millis: t.timestamp_millis(),
        year: t.year(),
        month: t.month(),
        day: t.day(),
        hour: t.hour(),
        minute: t.minute(),
        second: t.second(),
    }
}

/// A span of time: whole seconds plus a sub-second part in nanoseconds.
#[derive(Clone, Copy, Debug, PartialEq, Eq, Structural)]
pub struct Period {
    pub secs: u64,
    pub nanos: u32,
}

impl Period {
    /// The sub-second part is less than one second.
    pub open spec fn wf(&self) -> bool {
        self.nanos < NANOS_PER_SEC
    }

    /// The length of the span in nanoseconds.
    pub open spec fn total_nanos(&self) -> nat {
        (self.secs as nat) * (NANOS_PER_SEC as nat) + (self.nanos as nat)
    }

    /// The span of `millis` milliseconds.
    pub open spec fn spec_from_millis(millis: u64) -> Period {
        Period {
            secs: millis / MILLIS_PER_SEC,
            nanos: ((millis % MILLIS_PER_SEC) * (NANOS_PER_MILLI as u64)) as u32,
        }
    }

    /// The span of `secs` whole seconds.
    pub fn from_secs(secs: u64) -> (p: Period)
        ensures
            p == (Period { secs, nanos: 0 }),
            p.wf(),
            p.total_nanos() == secs * NANOS_PER_SEC,
    {
        Period { secs, nanos: 0 }
    }

    /// The span of `millis` milliseconds.
    pub fn from_millis(millis: u64) -> (p: Period)
        ensures
            p == Period::spec_from_millis(millis),
            p.wf(),
            p.total_nanos() == millis * NANOS_PER_MILLI,
    {
        let secs: u64 = millis / MILLIS_PER_SEC;
        let rest: u64 = millis % MILLIS_PER_SEC;
        let nanos: u32 = (rest * (NANOS_PER_MILLI as u64)) as u32;
        assert(secs * 1_000_000_000 + rest * 1_000_000 == millis * 1_000_000) by (nonlinear_arith)
            requires
                secs == millis / 1000,
                rest == millis % 1000,
        ;
        Period { secs, nanos }
    }

    /// Whether the span is empty.
    pub fn is_zero(&self) -> (zero: bool)
        ensures
            zero == (self.total_nanos() == 0),
    {
        assert(self.secs > 0 ==> self.secs * 1_000_000_000 > 0) by (nonlinear_arith);
        self.secs == 0 && self.nanos == 0
    }
}

} // verus!
