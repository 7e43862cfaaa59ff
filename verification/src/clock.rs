//! Reading the system clock.
//!
//! The one place the library touches the outside world: everything else works
//! on [`Timestamp`] values, which the host may equally well build itself.

use crate::time::Timestamp;
use chrono::{Datelike, Timelike};
use vstd::prelude::*;

verus! {

/// Relies on `chrono::Local::now` for the current local date and time, read
/// out through chrono's accessors: `Datelike::num_days_from_ce` (days counted
/// from January 1 of year 1 CE; negative before it), `Timelike::hour` (0 to
/// 23), `Timelike::minute` and `Timelike::second` (0 to 59), and
/// `DateTime::timestamp_subsec_millis` (0 to 999, more during a leap second).
/// Only the documented ranges of the time-of-day components are assumed;
/// nothing is assumed about which instant comes back.
#[verifier::external_body]
fn read_system_clock() -> (r: (i32, u32, u32, u32, u32))
    ensures
        r.1 < 24,
        r.2 < 60,
        r.3 < 60,
{
    let now = chrono::Local::now();
    let time = now.time();
    (now.date_naive().num_days_from_ce(), time.hour(), time.minute(), time.second(), now
        .timestamp_subsec_millis())
}

/// The current wall-clock time as a well-formed [`Timestamp`].  The day index
/// counts days from 1 CE, clamped at zero for dates before it, and a leap
/// second's overflow milliseconds are folded into the last millisecond of its
/// second.
pub fn now_timestamp() -> (r: Timestamp)
    ensures
        r.wf(),
{
    let (day_ce, hour, minute, second, millis) = read_system_clock();
    let day: u32 = if day_ce < 0 {
        0
    } else {
        day_ce as u32
    };
    let ms: u32 = if millis > 999 {
        999
    } else {
        millis
    };
    Timestamp::from_hms(day, hour, minute, second, ms)
}

} // verus!
