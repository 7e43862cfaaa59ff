//! Laws of the tracker over whole tick sequences.
//!
//! [`crate::tracker::TimeTracker::tick`] states what one tick does through
//! [`stopwatch_step`], [`timer_step`] and the alarm firing predicate.  The
//! proof functions here lift those single-step contracts to arbitrary runs of
//! ticks with no commands in between: a stopped stopwatch never moves, a
//! running one gains exactly the elapsed wall time, a running timer expires
//! exactly once, and an alarm fires at most once per calendar minute.

use crate::time::{delta_ms, later_of, Timestamp};
use crate::tracker::{
    alarm_should_fire, fire_key, mark_fired, stopwatch_step, timer_step, AlarmItem, TimerRun,
};
use vstd::prelude::*;

verus! {

/// The stopwatch's elapsed time after a run of ticks, starting from reference
/// point `last`: each tick applies one [`stopwatch_step`], exactly as one call
/// of `tick` does.
pub open spec fn elapsed_after_ticks(
    elapsed: int,
    running: bool,
    last: Timestamp,
    ticks: Seq<Timestamp>,
) -> int
    decreases ticks.len(),
{
    if ticks.len() == 0 {
        elapsed
    } else {
        elapsed_after_ticks(
            stopwatch_step(elapsed, running, delta_ms(last, ticks[0])),
            running,
            later_of(last, ticks[0]),
            ticks.skip(1),
        )
    }
}

/// The timer's abstract state after a run of ticks, starting from reference
/// point `last`: each tick applies one [`timer_step`], exactly as one call of
/// `tick` does.
pub open spec fn timer_after_ticks(t: TimerRun, last: Timestamp, ticks: Seq<Timestamp>) -> TimerRun
    decreases ticks.len(),
{
    if ticks.len() == 0 {
        t
    } else {
        timer_after_ticks(
            timer_step(t, delta_ms(last, ticks[0])),
            later_of(last, ticks[0]),
            ticks.skip(1),
        )
    }
}

/// The total wall time a run of ticks advances past the reference point `last`.
pub open spec fn total_delta(last: Timestamp, ticks: Seq<Timestamp>) -> int
    decreases ticks.len(),
{
    if ticks.len() == 0 {
        0
    } else {
        delta_ms(last, ticks[0]) + total_delta(later_of(last, ticks[0]), ticks.skip(1))
    }
}

/// The ticks arrive in wall-clock order, starting no earlier than `last`.
pub open spec fn ticks_in_order(last: Timestamp, ticks: Seq<Timestamp>) -> bool
    decreases ticks.len(),
{
    ticks.len() == 0 || (ticks[0].total_ms() >= last.total_ms() && ticks_in_order(
        ticks[0],
        ticks.skip(1),
    ))
}

/// A stopwatch that is not running is frozen: no sequence of ticks with no
/// command in between changes its elapsed time.
pub proof fn lemma_stopped_stopwatch_frozen(elapsed: int, last: Timestamp, ticks: Seq<Timestamp>)
    ensures
        elapsed_after_ticks(elapsed, false, last, ticks) == elapsed,
    decreases ticks.len(),
{
    if ticks.len() > 0 {
        lemma_stopped_stopwatch_frozen(elapsed, later_of(last, ticks[0]), ticks.skip(1));
    }
}

/// A running stopwatch is drift-free: over any in-order run of ticks, however
/// unevenly spaced, it gains exactly the wall time from the reference point
/// `last` to the final tick.
pub proof fn lemma_running_stopwatch_exact(elapsed: int, last: Timestamp, ticks: Seq<Timestamp>)
    requires
        ticks_in_order(last, ticks),
        ticks.len() > 0,
    ensures
        elapsed_after_ticks(elapsed, true, last, ticks) == elapsed + ticks.last().total_ms()
            - last.total_ms(),
    decreases ticks.len(),
{
    let first = ticks[0];
    assert(later_of(last, first) == first);
    let gained = elapsed + first.total_ms() - last.total_ms();
    assert(elapsed_after_ticks(elapsed, true, last, ticks) == elapsed_after_ticks(
        gained,
        true,
        first,
        ticks.skip(1),
    ));
    if ticks.len() == 1 {
        assert(ticks.skip(1).len() == 0);
        assert(elapsed_after_ticks(gained, true, first, ticks.skip(1)) == gained);
        assert(ticks.last() == first);
    } else {
        lemma_running_stopwatch_exact(gained, first, ticks.skip(1));
        assert(ticks.skip(1).last() == ticks.last());
    }
}

/// A timer that is not running is frozen: ticks neither move its remaining
/// time nor make it expire.
pub proof fn lemma_stopped_timer_frozen(t: TimerRun, last: Timestamp, ticks: Seq<Timestamp>)
    requires
        !t.running,
    ensures
        timer_after_ticks(t, last, ticks) == t,
    decreases ticks.len(),
{
    if ticks.len() > 0 {
        lemma_stopped_timer_frozen(t, later_of(last, ticks[0]), ticks.skip(1));
    }
}

/// A running timer runs to exactly zero once the cumulative tick delta covers
/// its remaining time, stops, and expires exactly once — further ticks leave
/// it at zero and never make it expire again.
pub proof fn lemma_timer_expires_exactly_once(t: TimerRun, last: Timestamp, ticks: Seq<Timestamp>)
    requires
        t.running,
        0 < t.remaining,
        total_delta(last, ticks) >= t.remaining,
    ensures
        timer_after_ticks(t, last, ticks) == (TimerRun {
            remaining: 0,
            running: false,
            expiries: t.expiries + 1,
        }),
    decreases ticks.len(),
{
    let d0 = delta_ms(last, ticks[0]);
    let stepped = timer_step(t, d0);
    if d0 >= t.remaining {
        lemma_stopped_timer_frozen(stepped, later_of(last, ticks[0]), ticks.skip(1));
    } else {
        lemma_timer_expires_exactly_once(stepped, later_of(last, ticks[0]), ticks.skip(1));
    }
}

/// An enabled alarm fires when a tick lands on its time of day at the top of
/// a minute; once fired it does not fire again at any instant of the same
/// minute of the same day, but it fires again on a later day at its time.
pub proof fn lemma_alarm_fires_once_per_minute(
    a: AlarmItem,
    now: Timestamp,
    again: Timestamp,
    next_day: Timestamp,
)
    requires
        a.enabled,
        a.hour == now.spec_hour(),
        a.minute == now.spec_minute(),
        now.spec_second() == 0,
        a.last_fired != Some(fire_key(now)),
        again.day == now.day,
        again.spec_minute_of_day() == now.spec_minute_of_day(),
        next_day.day != now.day,
        next_day.spec_hour() == a.hour,
        next_day.spec_minute() == a.minute,
        next_day.spec_second() == 0,
    ensures
        alarm_should_fire(a, now),
        !alarm_should_fire(mark_fired(a, now), again),
        alarm_should_fire(mark_fired(a, now), next_day),
{
}

} // verus!
