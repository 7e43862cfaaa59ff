//! Wall-clock instants with millisecond precision.
//!
//! A [`Timestamp`] is a day index together with the milliseconds elapsed since
//! that day's midnight.  The split keeps every derived quantity (hour, minute,
//! second, minute of the day) a small integer computation, and makes "the same
//! minute of the same day" — the granularity at which an alarm may fire — a
//! plain equality of fields.

use vstd::arithmetic::div_mod::{lemma_div_is_ordered, lemma_fundamental_div_mod_converse,
    lemma_mod_bound, lemma_small_mod};
use vstd::prelude::*;

verus! {

pub const MS_PER_SECOND: u32 = 1_000;

pub const MS_PER_MINUTE: u32 = 60_000;

pub const MS_PER_HOUR: u32 = 3_600_000;

pub const MS_PER_DAY: u32 = 86_400_000;

/// A wall-clock instant: a day index (days counted from some fixed epoch) and
/// the milliseconds elapsed since that day's midnight.
#[derive(Clone, Copy, Debug, PartialEq, Eq, Structural)]
pub struct Timestamp {
    pub day: u32,
    pub msec: u32,
}

impl Timestamp {
    /// The milliseconds-of-day component names an instant within one day.
    pub open spec fn wf(self) -> bool {
        self.msec < MS_PER_DAY
    }

    /// Total milliseconds since the epoch's midnight; the linear time line on
    /// which tick deltas are measured.
    pub open spec fn total_ms(self) -> int {
        self.day * (MS_PER_DAY as int) + self.msec
    }

    pub open spec fn spec_hour(self) -> u32 {
        self.msec / MS_PER_HOUR
    }

    pub open spec fn spec_minute(self) -> u32 {
        (self.msec / MS_PER_MINUTE) % 60
    }

    pub open spec fn spec_second(self) -> u32 {
        (self.msec / MS_PER_SECOND) % 60
    }

    /// Minutes elapsed since midnight; the granularity of alarm deduplication.
    pub open spec fn spec_minute_of_day(self) -> u32 {
        self.msec / MS_PER_MINUTE
    }

    pub fn new(day: u32, msec: u32) -> (r: Timestamp)
        requires
            msec < MS_PER_DAY,
        ensures
            r.wf(),
            r.day == day,
            r.msec == msec,
    {
        Timestamp { day, msec }
    }

    /// Builds the instant `day` at `hour:minute:second.millis`.
    pub fn from_hms(day: u32, hour: u32, minute: u32, second: u32, millis: u32) -> (r: Timestamp)
        requires
            hour < 24,
            minute < 60,
            second < 60,
            millis < 1000,
        ensures
            r.wf(),
            r.day == day,
            r.msec == hour * MS_PER_HOUR + minute * MS_PER_MINUTE + second * MS_PER_SECOND
                + millis,
            r.spec_hour() == hour,
            r.spec_minute() == minute,
            r.spec_second() == second,
            r.spec_minute_of_day() == hour * 60 + minute,
    {
        let msec: u32 = hour * MS_PER_HOUR + minute * MS_PER_MINUTE + second * MS_PER_SECOND
            + millis;
        proof {
            let m = msec as int;
            lemma_fundamental_div_mod_converse(
                m,
                MS_PER_HOUR as int,
                hour as int,
                (minute * MS_PER_MINUTE + second * MS_PER_SECOND + millis) as int,
            );
            lemma_fundamental_div_mod_converse(
                m,
                MS_PER_MINUTE as int,
                (hour * 60 + minute) as int,
                (second * MS_PER_SECOND + millis) as int,
            );
            lemma_fundamental_div_mod_converse(
                (hour * 60 + minute) as int,
                60int,
                hour as int,
                minute as int,
            );
            lemma_fundamental_div_mod_converse(
                m,
                MS_PER_SECOND as int,
                (hour * 3600 + minute * 60 + second) as int,
                millis as int,
            );
            lemma_fundamental_div_mod_converse(
                (hour * 3600 + minute * 60 + second) as int,
                60int,
                (hour * 60 + minute) as int,
                second as int,
            );
            lemma_small_mod(minute as nat, 60nat);
            lemma_small_mod(second as nat, 60nat);
        }
        Timestamp { day, msec }
    }

    pub fn hour(&self) -> (r: u32)
        ensures
            r == self.spec_hour(),
    {
        self.msec / MS_PER_HOUR
    }

    pub fn minute(&self) -> (r: u32)
        ensures
            r == self.spec_minute(),
    {
        (self.msec / MS_PER_MINUTE) % 60
    }

    pub fn second(&self) -> (r: u32)
        ensures
            r == self.spec_second(),
    {
        (self.msec / MS_PER_SECOND) % 60
    }

    pub fn minute_of_day(&self) -> (r: u32)
        ensures
            r == self.spec_minute_of_day(),
    {
        self.msec / MS_PER_MINUTE
    }

    pub fn total_ms_u64(&self) -> (r: u64)
        ensures
            r == self.total_ms(),
    {
        proof {
            assert(self.day as int * (MS_PER_DAY as int) <= 0xFFFF_FFFF * (MS_PER_DAY as int))
                by (nonlinear_arith)
                requires
                    self.day as int <= 0xFFFF_FFFF,
            ;
        }
        self.day as u64 * (MS_PER_DAY as u64) + self.msec as u64
    }
}

/// On a well-formed instant every derived component lies in its calendar
/// range: hour below 24, minute and second below 60, minute of the day below
/// 1440.
pub proof fn lemma_time_component_bounds(t: Timestamp)
    requires
        t.wf(),
    ensures
        t.spec_hour() < 24,
        t.spec_minute() < 60,
        t.spec_second() < 60,
        t.spec_minute_of_day() < 1440,
{
    lemma_div_is_ordered(t.msec as int, MS_PER_DAY as int - 1, MS_PER_HOUR as int);
    lemma_fundamental_div_mod_converse(MS_PER_DAY as int - 1, MS_PER_HOUR as int, 23, 3_599_999);
    lemma_div_is_ordered(t.msec as int, MS_PER_DAY as int - 1, MS_PER_MINUTE as int);
    lemma_fundamental_div_mod_converse(MS_PER_DAY as int - 1, MS_PER_MINUTE as int, 1439, 59_999);
    lemma_mod_bound((t.msec / MS_PER_MINUTE) as int, 60);
    lemma_mod_bound((t.msec / MS_PER_SECOND) as int, 60);
}

/// Wall time elapsed from `last` to `now`, zero if `now` lies before `last`
/// (the tracker tolerates out-of-order ticks by ignoring backwards time).
pub open spec fn delta_ms(last: Timestamp, now: Timestamp) -> int {
    if now.total_ms() >= last.total_ms() {
        now.total_ms() - last.total_ms()
    } else {
        0
    }
}

/// The later of two instants; the tracker's reference point for the next delta.
pub open spec fn later_of(last: Timestamp, now: Timestamp) -> Timestamp {
    if now.total_ms() >= last.total_ms() {
        now
    } else {
        last
    }
}

} // verus!
