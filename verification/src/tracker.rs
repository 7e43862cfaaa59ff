//! The time-tracking state machine.
//!
//! [`TimeTracker`] owns a wall-clock snapshot, a stopwatch, a one-shot
//! countdown timer, an ordered list of alarms and the single in-progress alarm
//! edit.  It is advanced by [`TimeTracker::tick`] and mutated by one method per
//! user action; every method is a pure, immediate state transition whose side
//! effects are returned as [`NotificationRequest`] values for the host to
//! deliver.  Malformed input (an out-of-range hour, an unknown alarm id) is
//! clamped or silently ignored, never an error.

use crate::time::{delta_ms, later_of, lemma_time_component_bounds, Timestamp};
use vstd::prelude::*;

verus! {

/// Timer duration a freshly constructed tracker starts with (five minutes).
pub const DEFAULT_TIMER_MS: u64 = 300_000;

/// The largest duration the timer setters can produce: `u32::MAX` minutes plus
/// fifty-nine seconds, in milliseconds.
pub const MAX_TIMER_MS: u64 = 257_698_037_759_000;

/// The minute (of a particular day) in which an alarm last fired; the
/// deduplication key that makes an alarm fire at most once per calendar minute.
#[derive(Clone, Copy, Debug, PartialEq, Eq, Structural)]
pub struct FiredAt {
    pub day: u32,
    pub minute_of_day: u32,
}

/// One alarm: a time of day, a label, an enabled flag, and the minute in which
/// it last fired.
#[derive(Clone, Debug, PartialEq, Eq)]
pub struct AlarmItem {
    pub id: u32,
    pub hour: u32,
    pub minute: u32,
    pub label: String,
    pub enabled: bool,
    pub last_fired: Option<FiredAt>,
}

impl AlarmItem {
    pub open spec fn wf(self) -> bool {
        &&& self.hour < 24
        &&& self.minute < 60
        &&& (self.last_fired matches Some(f) ==> f.minute_of_day < 1440)
    }
}

/// The single in-progress alarm edit: `id` is `None` while creating a new
/// alarm and `Some` while editing an existing one.
#[derive(Clone, Debug, PartialEq, Eq)]
pub struct AlarmEdit {
    pub id: Option<u32>,
    pub hour: u32,
    pub minute: u32,
    pub label: String,
}

impl AlarmEdit {
    pub open spec fn wf(self) -> bool {
        self.hour < 24 && self.minute < 60
    }
}

/// A side effect the core asks the host to perform.  The core never waits for
/// delivery and never observes its outcome.
#[derive(Clone, Debug, PartialEq, Eq)]
pub enum NotificationRequest {
    AlarmFired { label: String, hour: u32, minute: u32 },
    TimerExpired,
    StopwatchStopped { elapsed_ms: u64 },
    AlarmSet { hour: u32, minute: u32 },
}

/// A discrete user action or clock tick, as one closed union; the host's
/// event loop feeds these to [`TimeTracker::apply_command`] one at a time.
#[derive(Clone, Debug)]
pub enum Command {
    Tick(Timestamp),
    StartStopwatch,
    StopStopwatch,
    ResetStopwatch,
    StartTimer,
    StopTimer,
    ResetTimer,
    SetTimerMinutes(u32),
    SetTimerSeconds(u32),
    AddAlarm,
    EditAlarm(u32),
    DeleteAlarm(u32),
    ToggleAlarm(u32),
    SaveAlarm,
    CancelAlarmEdit,
    AlarmEditHour(u32),
    AlarmEditMinute(u32),
    AlarmEditLabel(String),
}

/// The countdown timer's abstract state, used to describe what one tick delta
/// does to it: `expiries` counts run-to-zero transitions.
pub struct TimerRun {
    pub remaining: int,
    pub running: bool,
    pub expiries: int,
}

/// One tick of wall time `delta` applied to a running or stopped timer: a
/// running timer counts down, stops the instant it reaches zero, and records
/// exactly one expiry for that transition; a stopped timer is frozen.
pub open spec fn timer_step(t: TimerRun, delta: int) -> TimerRun {
    if t.running {
        if delta >= t.remaining {
            TimerRun { remaining: 0, running: false, expiries: t.expiries + 1 }
        } else {
            TimerRun { remaining: t.remaining - delta, running: t.running, expiries: t.expiries }
        }
    } else {
        t
    }
}

/// One tick of wall time `delta` applied to the stopwatch: a running stopwatch
/// accumulates exactly the elapsed wall time, a stopped one is frozen.
pub open spec fn stopwatch_step(elapsed: int, running: bool, delta: int) -> int {
    elapsed + if running {
        delta
    } else {
        0
    }
}

/// The deduplication key of the minute `now` falls in.
pub open spec fn fire_key(now: Timestamp) -> FiredAt {
    FiredAt { day: now.day, minute_of_day: now.spec_minute_of_day() }
}

/// An enabled alarm fires when a tick lands on its time of day at the top of a
/// minute, unless it has already fired in that very minute.
pub open spec fn alarm_should_fire(a: AlarmItem, now: Timestamp) -> bool {
    &&& a.enabled
    &&& a.hour == now.spec_hour()
    &&& a.minute == now.spec_minute()
    &&& now.spec_second() == 0
    &&& a.last_fired != Some(fire_key(now))
}

/// The alarm after a tick at `now`: marked as fired in `now`'s minute if it
/// fires, untouched otherwise.
pub open spec fn mark_fired(a: AlarmItem, now: Timestamp) -> AlarmItem {
    if alarm_should_fire(a, now) {
        AlarmItem {
            id: a.id,
            hour: a.hour,
            minute: a.minute,
            label: a.label,
            enabled: a.enabled,
            last_fired: Some(fire_key(now)),
        }
    } else {
        a
    }
}

/// The notification an alarm emits when it fires.
pub open spec fn alarm_notif(a: AlarmItem) -> NotificationRequest {
    NotificationRequest::AlarmFired { label: a.label, hour: a.hour, minute: a.minute }
}

/// The notifications a tick at `now` emits for a list of alarms, in list
/// order: one per alarm that fires.
pub open spec fn fired_notifs(alarms: Seq<AlarmItem>, now: Timestamp) -> Seq<NotificationRequest>
    decreases alarms.len(),
{
    if alarms.len() == 0 {
        Seq::empty()
    } else if alarm_should_fire(alarms.last(), now) {
        fired_notifs(alarms.drop_last(), now).push(alarm_notif(alarms.last()))
    } else {
        fired_notifs(alarms.drop_last(), now)
    }
}

/// The alarm appended when a create draft is saved: enabled, never fired.
pub open spec fn new_alarm(d: AlarmEdit, id: u32) -> AlarmItem {
    AlarmItem { id, hour: d.hour, minute: d.minute, label: d.label, enabled: true, last_fired: None }
}

/// The whole time-tracking state: wall-clock snapshot, stopwatch, countdown
/// timer, alarm list and the in-progress alarm edit.
pub struct TimeTracker {
    /// Wall-clock snapshot for display, replaced wholesale by every tick.
    pub clock: Timestamp,
    /// The reference point tick deltas are measured from.  It never moves
    /// backwards: a tick that lies before it contributes a zero delta.
    pub last_tick: Timestamp,
    pub stopwatch_elapsed_ms: u64,
    pub stopwatch_running: bool,
    pub timer_duration_ms: u64,
    pub timer_remaining_ms: u64,
    pub timer_running: bool,
    /// Alarms in insertion order; ids are unique and never reused.
    pub alarms: Vec<AlarmItem>,
    pub next_alarm_id: u32,
    pub draft: Option<AlarmEdit>,
}

impl TimeTracker {
    pub open spec fn wf(self) -> bool {
        &&& self.clock.wf()
        &&& self.last_tick.wf()
        &&& self.stopwatch_elapsed_ms <= self.last_tick.total_ms()
        &&& self.timer_remaining_ms <= self.timer_duration_ms
        &&& self.timer_duration_ms <= MAX_TIMER_MS
        &&& (self.timer_running ==> self.timer_remaining_ms > 0)
        &&& (forall|i: int| 0 <= i < self.alarms@.len() ==> (#[trigger] self.alarms@[i]).wf())
        &&& (forall|i: int|
            0 <= i < self.alarms@.len() ==> (#[trigger] self.alarms@[i]).id < self.next_alarm_id)
        &&& (forall|i: int, j: int|
            0 <= i < j < self.alarms@.len() ==> self.alarms@[i].id != self.alarms@[j].id)
        &&& (self.draft matches Some(d) ==> d.wf())
    }

    /// The stopwatch of `post` is that of `pre`, untouched.
    pub open spec fn stopwatch_unchanged(pre: TimeTracker, post: TimeTracker) -> bool {
        &&& post.stopwatch_elapsed_ms == pre.stopwatch_elapsed_ms
        &&& post.stopwatch_running == pre.stopwatch_running
    }

    /// The timer of `post` is that of `pre`, untouched.
    pub open spec fn timer_unchanged(pre: TimeTracker, post: TimeTracker) -> bool {
        &&& post.timer_duration_ms == pre.timer_duration_ms
        &&& post.timer_remaining_ms == pre.timer_remaining_ms
        &&& post.timer_running == pre.timer_running
    }

    /// The alarm list (and the id counter) of `post` is that of `pre`.
    pub open spec fn alarms_unchanged(pre: TimeTracker, post: TimeTracker) -> bool {
        &&& post.alarms == pre.alarms
        &&& post.next_alarm_id == pre.next_alarm_id
    }

    /// The clock snapshot and tick reference of `post` are those of `pre`.
    pub open spec fn clock_unchanged(pre: TimeTracker, post: TimeTracker) -> bool {
        &&& post.clock == pre.clock
        &&& post.last_tick == pre.last_tick
    }

    pub open spec fn draft_unchanged(pre: TimeTracker, post: TimeTracker) -> bool {
        post.draft == pre.draft
    }

    /// A fresh tracker at instant `now`: everything idle, a five-minute timer
    /// configured, no alarms, no draft.
    pub fn new(now: Timestamp) -> (r: TimeTracker)
        requires
            now.wf(),
        ensures
            r.wf(),
            r.clock == now,
            r.last_tick == now,
            r.stopwatch_elapsed_ms == 0,
            !r.stopwatch_running,
            r.timer_duration_ms == DEFAULT_TIMER_MS,
            r.timer_remaining_ms == DEFAULT_TIMER_MS,
            !r.timer_running,
            r.alarms@ =~= Seq::<AlarmItem>::empty(),
            r.next_alarm_id == 1,
            r.draft is None,
    {
        TimeTracker {
            clock: now,
            last_tick: now,
            stopwatch_elapsed_ms: 0,
            stopwatch_running: false,
            timer_duration_ms: DEFAULT_TIMER_MS,
            timer_remaining_ms: DEFAULT_TIMER_MS,
            timer_running: false,
            alarms: Vec::new(),
            next_alarm_id: 1,
            draft: None,
        }
    }

    /// What starting the stopwatch does: it runs, nothing else moves.
    pub open spec fn start_stopwatch_post(pre: TimeTracker, post: TimeTracker) -> bool {
        &&& post.stopwatch_running
        &&& post.stopwatch_elapsed_ms == pre.stopwatch_elapsed_ms
        &&& Self::clock_unchanged(pre, post)
        &&& Self::timer_unchanged(pre, post)
        &&& Self::alarms_unchanged(pre, post)
        &&& Self::draft_unchanged(pre, post)
    }

    /// Starts the stopwatch; idempotent if it is already running.
    pub fn start_stopwatch(&mut self)
        requires
            old(self).wf(),
        ensures
            final(self).wf(),
            Self::start_stopwatch_post(*old(self), *final(self)),
    {
        self.stopwatch_running = true;
    }

    /// Stops the stopwatch and asks the host to announce the final time.  The
    /// notification is emitted even if the stopwatch was already stopped.
    pub open spec fn stop_stopwatch_post(
        pre: TimeTracker,
        post: TimeTracker,
        r: NotificationRequest,
    ) -> bool {
        &&& !post.stopwatch_running
        &&& post.stopwatch_elapsed_ms == pre.stopwatch_elapsed_ms
        &&& r == (NotificationRequest::StopwatchStopped { elapsed_ms: pre.stopwatch_elapsed_ms })
        &&& Self::clock_unchanged(pre, post)
        &&& Self::timer_unchanged(pre, post)
        &&& Self::alarms_unchanged(pre, post)
        &&& Self::draft_unchanged(pre, post)
    }

    pub fn stop_stopwatch(&mut self) -> (r: NotificationRequest)
        requires
            old(self).wf(),
        ensures
            final(self).wf(),
            Self::stop_stopwatch_post(*old(self), *final(self), r),
    {
        self.stopwatch_running = false;
        NotificationRequest::StopwatchStopped { elapsed_ms: self.stopwatch_elapsed_ms }
    }

    /// Stops the stopwatch and clears its elapsed time.
    pub open spec fn reset_stopwatch_post(pre: TimeTracker, post: TimeTracker) -> bool {
        &&& !post.stopwatch_running
        &&& post.stopwatch_elapsed_ms == 0
        &&& Self::clock_unchanged(pre, post)
        &&& Self::timer_unchanged(pre, post)
        &&& Self::alarms_unchanged(pre, post)
        &&& Self::draft_unchanged(pre, post)
    }

    pub fn reset_stopwatch(&mut self)
        requires
            old(self).wf(),
        ensures
            final(self).wf(),
            Self::reset_stopwatch_post(*old(self), *final(self)),
    {
        self.stopwatch_running = false;
        self.stopwatch_elapsed_ms = 0;
    }

    /// Starts the timer.  A timer whose remaining time is already zero stays
    /// stopped: `timer_running` always implies time left to count down.
    pub open spec fn start_timer_post(pre: TimeTracker, post: TimeTracker) -> bool {
        &&& post.timer_running == (pre.timer_remaining_ms > 0)
        &&& post.timer_duration_ms == pre.timer_duration_ms
        &&& post.timer_remaining_ms == pre.timer_remaining_ms
        &&& Self::clock_unchanged(pre, post)
        &&& Self::stopwatch_unchanged(pre, post)
        &&& Self::alarms_unchanged(pre, post)
        &&& Self::draft_unchanged(pre, post)
    }

    pub fn start_timer(&mut self)
        requires
            old(self).wf(),
        ensures
            final(self).wf(),
            Self::start_timer_post(*old(self), *final(self)),
    {
        self.timer_running = self.timer_remaining_ms > 0;
    }

    /// Pauses the timer; the remaining time is kept.
    pub open spec fn stop_timer_post(pre: TimeTracker, post: TimeTracker) -> bool {
        &&& !post.timer_running
        &&& post.timer_duration_ms == pre.timer_duration_ms
        &&& post.timer_remaining_ms == pre.timer_remaining_ms
        &&& Self::clock_unchanged(pre, post)
        &&& Self::stopwatch_unchanged(pre, post)
        &&& Self::alarms_unchanged(pre, post)
        &&& Self::draft_unchanged(pre, post)
    }

    pub fn stop_timer(&mut self)
        requires
            old(self).wf(),
        ensures
            final(self).wf(),
            Self::stop_timer_post(*old(self), *final(self)),
    {
        self.timer_running = false;
    }

    /// Stops the timer and restores the configured duration, silently.
    pub open spec fn reset_timer_post(pre: TimeTracker, post: TimeTracker) -> bool {
        &&& !post.timer_running
        &&& post.timer_duration_ms == pre.timer_duration_ms
        &&& post.timer_remaining_ms == pre.timer_duration_ms
        &&& Self::clock_unchanged(pre, post)
        &&& Self::stopwatch_unchanged(pre, post)
        &&& Self::alarms_unchanged(pre, post)
        &&& Self::draft_unchanged(pre, post)
    }

    pub fn reset_timer(&mut self)
        requires
            old(self).wf(),
        ensures
            final(self).wf(),
            Self::reset_timer_post(*old(self), *final(self)),
    {
        self.timer_running = false;
        self.timer_remaining_ms = self.timer_duration_ms;
    }

    /// The seconds component (0 to 59) of the configured timer duration.
    pub open spec fn spec_timer_seconds_component(self) -> int {
        (self.timer_duration_ms as int / 1000) % 60
    }

    /// The whole-minutes component of the configured timer duration.
    pub open spec fn spec_timer_minutes_component(self) -> int {
        self.timer_duration_ms as int / 60_000
    }

    /// Replaces the minutes component of the timer duration, keeping the
    /// current seconds component, and restarts the countdown from the new
    /// duration.  A timer left with no time to count down stops.
    pub open spec fn set_timer_minutes_post(
        pre: TimeTracker,
        post: TimeTracker,
        minutes: u32,
    ) -> bool {
        &&& post.timer_duration_ms == minutes * 60_000 + pre.spec_timer_seconds_component() * 1000
        &&& post.timer_remaining_ms == post.timer_duration_ms
        &&& post.timer_running == (pre.timer_running && post.timer_duration_ms > 0)
        &&& Self::clock_unchanged(pre, post)
        &&& Self::stopwatch_unchanged(pre, post)
        &&& Self::alarms_unchanged(pre, post)
        &&& Self::draft_unchanged(pre, post)
    }

    pub fn set_timer_minutes(&mut self, minutes: u32)
        requires
            old(self).wf(),
        ensures
            final(self).wf(),
            Self::set_timer_minutes_post(*old(self), *final(self), minutes),
    {
        let seconds_component: u64 = (self.timer_duration_ms / 1000) % 60;
        proof {
            assert(minutes as int * 60_000 <= 0xFFFF_FFFF * 60_000) by (nonlinear_arith)
                requires
                    minutes as int <= 0xFFFF_FFFF,
            ;
        }
        let duration: u64 = minutes as u64 * 60_000 + seconds_component * 1000;
        self.timer_duration_ms = duration;
        self.timer_remaining_ms = duration;
        self.timer_running = self.timer_running && duration > 0;
    }

    /// Replaces the seconds component of the timer duration (clamped to 59),
    /// keeping the current whole minutes, and restarts the countdown from the
    /// new duration.  A timer left with no time to count down stops.
    pub open spec fn set_timer_seconds_post(
        pre: TimeTracker,
        post: TimeTracker,
        seconds: u32,
    ) -> bool {
        &&& post.timer_duration_ms == pre.spec_timer_minutes_component() * 60_000 + (
        if seconds > 59 {
            59int
        } else {
            seconds as int
        }) * 1000
        &&& post.timer_remaining_ms == post.timer_duration_ms
        &&& post.timer_running == (pre.timer_running && post.timer_duration_ms > 0)
        &&& Self::clock_unchanged(pre, post)
        &&& Self::stopwatch_unchanged(pre, post)
        &&& Self::alarms_unchanged(pre, post)
        &&& Self::draft_unchanged(pre, post)
    }

    pub fn set_timer_seconds(&mut self, seconds: u32)
        requires
            old(self).wf(),
        ensures
            final(self).wf(),
            Self::set_timer_seconds_post(*old(self), *final(self), seconds),
    {
        let s: u64 = if seconds > 59 {
            59
        } else {
            seconds as u64
        };
        let minutes_component: u64 = self.timer_duration_ms / 60_000;
        proof {
            vstd::arithmetic::div_mod::lemma_div_is_ordered(
                self.timer_duration_ms as int,
                MAX_TIMER_MS as int,
                60_000,
            );
            vstd::arithmetic::div_mod::lemma_fundamental_div_mod_converse(
                MAX_TIMER_MS as int,
                60_000,
                0xFFFF_FFFF,
                59_000,
            );
            assert(minutes_component as int * 60_000 <= 0xFFFF_FFFF * 60_000) by (nonlinear_arith)
                requires
                    minutes_component as int <= 0xFFFF_FFFF,
            ;
        }
        let duration: u64 = minutes_component * 60_000 + s * 1000;
        self.timer_duration_ms = duration;
        self.timer_remaining_ms = duration;
        self.timer_running = self.timer_running && duration > 0;
    }

    /// Replaces the whole timer duration (`minutes` plus `seconds`, the latter
    /// clamped to 59) and restarts the countdown from it.  A timer left with
    /// no time to count down stops.
    pub open spec fn set_timer_duration_post(
        pre: TimeTracker,
        post: TimeTracker,
        minutes: u32,
        seconds: u32,
    ) -> bool {
        &&& post.timer_duration_ms == minutes * 60_000 + (
        if seconds > 59 {
            59int
        } else {
            seconds as int
        }) * 1000
        &&& post.timer_remaining_ms == post.timer_duration_ms
        &&& post.timer_running == (pre.timer_running && post.timer_duration_ms > 0)
        &&& Self::clock_unchanged(pre, post)
        &&& Self::stopwatch_unchanged(pre, post)
        &&& Self::alarms_unchanged(pre, post)
        &&& Self::draft_unchanged(pre, post)
    }

    pub fn set_timer_duration(&mut self, minutes: u32, seconds: u32)
        requires
            old(self).wf(),
        ensures
            final(self).wf(),
            Self::set_timer_duration_post(*old(self), *final(self), minutes, seconds),
    {
        let s: u64 = if seconds > 59 {
            59
        } else {
            seconds as u64
        };
        proof {
            assert(minutes as int * 60_000 <= 0xFFFF_FFFF * 60_000) by (nonlinear_arith)
                requires
                    minutes as int <= 0xFFFF_FFFF,
            ;
        }
        let duration: u64 = minutes as u64 * 60_000 + s * 1000;
        self.timer_duration_ms = duration;
        self.timer_remaining_ms = duration;
        self.timer_running = self.timer_running && duration > 0;
    }

    /// Opens a draft for a new alarm, seeded with the clock's current hour and
    /// minute and an empty label.  Any unsaved draft is overwritten.
    pub open spec fn begin_new_alarm_post(pre: TimeTracker, post: TimeTracker) -> bool {
        &&& post.draft matches Some(d) && d.id is None && d.hour == pre.clock.spec_hour()
            && d.minute == pre.clock.spec_minute() && d.label@ =~= Seq::<char>::empty()
        &&& Self::clock_unchanged(pre, post)
        &&& Self::stopwatch_unchanged(pre, post)
        &&& Self::timer_unchanged(pre, post)
        &&& Self::alarms_unchanged(pre, post)
    }

    pub fn begin_new_alarm(&mut self)
        requires
            old(self).wf(),
        ensures
            final(self).wf(),
            Self::begin_new_alarm_post(*old(self), *final(self)),
    {
        proof {
            crate::time::lemma_time_component_bounds(old(self).clock);
        }
        let hour = self.clock.hour();
        let minute = self.clock.minute();
        self.draft = Some(AlarmEdit { id: None, hour, minute, label: String::new() });
    }

    /// Discards the draft, unconditionally and without side effects.
    pub open spec fn cancel_draft_post(pre: TimeTracker, post: TimeTracker) -> bool {
        &&& post.draft is None
        &&& Self::clock_unchanged(pre, post)
        &&& Self::stopwatch_unchanged(pre, post)
        &&& Self::timer_unchanged(pre, post)
        &&& Self::alarms_unchanged(pre, post)
    }

    pub fn cancel_draft(&mut self)
        requires
            old(self).wf(),
        ensures
            final(self).wf(),
            Self::cancel_draft_post(*old(self), *final(self)),
    {
        self.draft = None;
    }

    /// Sets the draft's hour, clamping out-of-range input to 23.  Without a
    /// draft this is a no-op.
    pub open spec fn update_draft_hour_post(
        pre: TimeTracker,
        post: TimeTracker,
        hour: u32,
    ) -> bool {
        &&& pre.draft is None ==> post.draft == pre.draft
        &&& pre.draft matches Some(d) ==> post.draft == Some(
            AlarmEdit {
                hour: if hour > 23 {
                    23u32
                } else {
                    hour
                },
                ..d
            },
        )
        &&& Self::clock_unchanged(pre, post)
        &&& Self::stopwatch_unchanged(pre, post)
        &&& Self::timer_unchanged(pre, post)
        &&& Self::alarms_unchanged(pre, post)
    }

    pub fn update_draft_hour(&mut self, hour: u32)
        requires
            old(self).wf(),
        ensures
            final(self).wf(),
            Self::update_draft_hour_post(*old(self), *final(self), hour),
    {
        match &mut self.draft {
            Some(d) => {
                d.hour = if hour > 23 {
                    23
                } else {
                    hour
                };
            },
            None => {},
        }
    }

    /// Sets the draft's minute, clamping out-of-range input to 59.  Without a
    /// draft this is a no-op.
    pub open spec fn update_draft_minute_post(
        pre: TimeTracker,
        post: TimeTracker,
        minute: u32,
    ) -> bool {
        &&& pre.draft is None ==> post.draft == pre.draft
        &&& pre.draft matches Some(d) ==> post.draft == Some(
            AlarmEdit {
                minute: if minute > 59 {
                    59u32
                } else {
                    minute
                },
                ..d
            },
        )
        &&& Self::clock_unchanged(pre, post)
        &&& Self::stopwatch_unchanged(pre, post)
        &&& Self::timer_unchanged(pre, post)
        &&& Self::alarms_unchanged(pre, post)
    }

    pub fn update_draft_minute(&mut self, minute: u32)
        requires
            old(self).wf(),
        ensures
            final(self).wf(),
            Self::update_draft_minute_post(*old(self), *final(self), minute),
    {
        match &mut self.draft {
            Some(d) => {
                d.minute = if minute > 59 {
                    59
                } else {
                    minute
                };
            },
            None => {},
        }
    }

    /// Opens a draft editing the alarm with id `id`, seeded from that alarm's
    /// time and label.  An unknown id is silently ignored: no draft is created
    /// or replaced, no error is surfaced.
    pub open spec fn begin_edit_alarm_post(pre: TimeTracker, post: TimeTracker, id: u32) -> bool {
        &&& forall|j: int|
            0 <= j < pre.alarms@.len() && (#[trigger] pre.alarms@[j]).id == id ==> post.draft
                == Some(
                AlarmEdit {
                    id: Some(id),
                    hour: pre.alarms@[j].hour,
                    minute: pre.alarms@[j].minute,
                    label: pre.alarms@[j].label,
                },
            )
        &&& (forall|j: int|
            0 <= j < pre.alarms@.len() ==> (#[trigger] pre.alarms@[j]).id != id) ==> post.draft
            == pre.draft
        &&& Self::clock_unchanged(pre, post)
        &&& Self::stopwatch_unchanged(pre, post)
        &&& Self::timer_unchanged(pre, post)
        &&& Self::alarms_unchanged(pre, post)
    }

    pub fn begin_edit_alarm(&mut self, id: u32)
        requires
            old(self).wf(),
        ensures
            final(self).wf(),
            Self::begin_edit_alarm_post(*old(self), *final(self), id),
    {
        let n = self.alarms.len();
        let mut i: usize = 0;
        while i < n
            invariant
                old(self).wf(),
                *self == *old(self),
                n == self.alarms@.len(),
                i <= n,
                forall|j: int| 0 <= j < i ==> (#[trigger] self.alarms@[j]).id != id,
            decreases n - i,
        {
            if self.alarms[i].id == id {
                let hour = self.alarms[i].hour;
                let minute = self.alarms[i].minute;
                let label = self.alarms[i].label.clone();
                self.draft = Some(AlarmEdit { id: Some(id), hour, minute, label });
                proof {
                    assert forall|j: int|
                        0 <= j < old(self).alarms@.len() && (#[trigger] old(self).alarms@[j]).id
                            == id implies j == i by {
                        if j < i as int {
                            assert(old(self).alarms@[j].id != id);
                        }
                    };
                }
                return ;
            }
            i += 1;
        }
    }

    /// Removes the alarm with id `id`; an unknown id is silently ignored.
    pub open spec fn delete_alarm_post(pre: TimeTracker, post: TimeTracker, id: u32) -> bool {
        &&& (forall|j: int|
            0 <= j < pre.alarms@.len() ==> (#[trigger] pre.alarms@[j]).id != id) ==> post.alarms
            == pre.alarms
        &&& forall|j: int|
            0 <= j < pre.alarms@.len() && (#[trigger] pre.alarms@[j]).id == id ==> post.alarms@
                == pre.alarms@.remove(j)
        &&& post.next_alarm_id == pre.next_alarm_id
        &&& Self::clock_unchanged(pre, post)
        &&& Self::stopwatch_unchanged(pre, post)
        &&& Self::timer_unchanged(pre, post)
        &&& Self::draft_unchanged(pre, post)
    }

    pub fn delete_alarm(&mut self, id: u32)
        requires
            old(self).wf(),
        ensures
            final(self).wf(),
            Self::delete_alarm_post(*old(self), *final(self), id),
    {
        let n = self.alarms.len();
        let mut i: usize = 0;
        while i < n
            invariant
                old(self).wf(),
                *self == *old(self),
                n == self.alarms@.len(),
                i <= n,
                forall|j: int| 0 <= j < i ==> (#[trigger] self.alarms@[j]).id != id,
            decreases n - i,
        {
            if self.alarms[i].id == id {
                self.alarms.remove(i);
                proof {
                    assert forall|j: int|
                        0 <= j < old(self).alarms@.len() && (#[trigger] old(self).alarms@[j]).id
                            == id implies j == i by {
                        if j < i as int {
                            assert(old(self).alarms@[j].id != id);
                        }
                    };
                    let pre = old(self).alarms@;
                    let post = self.alarms@;
                    assert forall|k: int| 0 <= k < post.len() implies (#[trigger] post[k]).wf()
                        && post[k].id < self.next_alarm_id by {
                        if k < i as int {
                            assert(post[k] == pre[k]);
                        } else {
                            assert(post[k] == pre[k + 1]);
                        }
                    };
                    assert forall|p: int, q: int| 0 <= p < q < post.len() implies post[p].id
                        != post[q].id by {
                        let p0 = if p < i as int {
                            p
                        } else {
                            p + 1
                        };
                        let q0 = if q < i as int {
                            q
                        } else {
                            q + 1
                        };
                        assert(post[p] == pre[p0] && post[q] == pre[q0]);
                    };
                }
                return ;
            }
            i += 1;
        }
    }

    /// Flips the enabled flag of the alarm with id `id`; an unknown id is
    /// silently ignored.
    pub open spec fn toggle_alarm_post(pre: TimeTracker, post: TimeTracker, id: u32) -> bool {
        &&& post.alarms@.len() == pre.alarms@.len()
        &&& (forall|j: int|
            0 <= j < pre.alarms@.len() ==> (#[trigger] pre.alarms@[j]).id != id) ==> post.alarms
            == pre.alarms
        &&& forall|j: int|
            0 <= j < pre.alarms@.len() && (#[trigger] pre.alarms@[j]).id == id ==> post.alarms@[j]
                == (AlarmItem { enabled: !pre.alarms@[j].enabled, ..pre.alarms@[j] })
        &&& forall|j: int|
            0 <= j < pre.alarms@.len() && (#[trigger] pre.alarms@[j]).id != id ==> post.alarms@[j]
                == pre.alarms@[j]
        &&& post.next_alarm_id == pre.next_alarm_id
        &&& Self::clock_unchanged(pre, post)
        &&& Self::stopwatch_unchanged(pre, post)
        &&& Self::timer_unchanged(pre, post)
        &&& Self::draft_unchanged(pre, post)
    }

    pub fn toggle_alarm(&mut self, id: u32)
        requires
            old(self).wf(),
        ensures
            final(self).wf(),
            Self::toggle_alarm_post(*old(self), *final(self), id),
    {
        let n = self.alarms.len();
        let mut i: usize = 0;
        while i < n
            invariant
                old(self).wf(),
                *self == *old(self),
                n == self.alarms@.len(),
                i <= n,
                forall|j: int| 0 <= j < i ==> (#[trigger] self.alarms@[j]).id != id,
            decreases n - i,
        {
            if self.alarms[i].id == id {
                let flipped = AlarmItem {
                    id: self.alarms[i].id,
                    hour: self.alarms[i].hour,
                    minute: self.alarms[i].minute,
                    label: self.alarms[i].label.clone(),
                    enabled: !self.alarms[i].enabled,
                    last_fired: self.alarms[i].last_fired,
                };
                self.alarms[i] = flipped;
                proof {
                    assert forall|j: int|
                        0 <= j < old(self).alarms@.len() && (#[trigger] old(self).alarms@[j]).id
                            == id implies j == i by {
                        if j < i as int {
                            assert(old(self).alarms@[j].id != id);
                        }
                    };
                }
                return ;
            }
            i += 1;
        }
    }

    /// Replaces the draft's label.  Without a draft this is a no-op.
    pub open spec fn update_draft_label_post(
        pre: TimeTracker,
        post: TimeTracker,
        label: String,
    ) -> bool {
        &&& pre.draft is None ==> post.draft == pre.draft
        &&& pre.draft matches Some(d) ==> post.draft == Some(AlarmEdit { label, ..d })
        &&& Self::clock_unchanged(pre, post)
        &&& Self::stopwatch_unchanged(pre, post)
        &&& Self::timer_unchanged(pre, post)
        &&& Self::alarms_unchanged(pre, post)
    }

    pub fn update_draft_label(&mut self, label: String)
        requires
            old(self).wf(),
        ensures
            final(self).wf(),
            Self::update_draft_label_post(*old(self), *final(self), label),
    {
        match &mut self.draft {
            Some(d) => {
                d.label = label;
            },
            None => {},
        }
    }

    /// Saves the draft and clears it.  A create draft appends a new, enabled
    /// alarm under a fresh id (never reused, even after deletions) and asks
    /// the host to confirm; an edit draft rewrites the target alarm's time and
    /// label in place, keeping its enabled flag and fire guard.  An edit whose
    /// target alarm was deleted in the meantime is silently dropped, and a
    /// create draft is silently dropped in the (practically unreachable) case
    /// that the id space is exhausted.
    pub open spec fn save_draft_post(
        pre: TimeTracker,
        post: TimeTracker,
        r: Option<NotificationRequest>,
    ) -> bool {
        &&& post.draft is None
        &&& (pre.draft is None ==> Self::alarms_unchanged(pre, post) && r is None)
        &&& (pre.draft matches Some(d) && d.id is Some ==> r is None && post.next_alarm_id
            == pre.next_alarm_id && post.alarms@.len() == pre.alarms@.len())
        &&& (pre.draft matches Some(d) ==> (d.id matches Some(target) ==> forall|j: int|
            0 <= j < pre.alarms@.len() && (#[trigger] pre.alarms@[j]).id == target
                ==> post.alarms@[j] == (AlarmItem {
                hour: d.hour,
                minute: d.minute,
                label: d.label,
                ..pre.alarms@[j]
            })))
        &&& (pre.draft matches Some(d) ==> (d.id matches Some(target) ==> forall|j: int|
            0 <= j < pre.alarms@.len() && (#[trigger] pre.alarms@[j]).id != target
                ==> post.alarms@[j] == pre.alarms@[j]))
        &&& (pre.draft matches Some(d) ==> (d.id is None && pre.next_alarm_id < u32::MAX
            ==> post.alarms@ == pre.alarms@.push(new_alarm(d, pre.next_alarm_id))
                && post.next_alarm_id == pre.next_alarm_id + 1 && r == Some(
                NotificationRequest::AlarmSet { hour: d.hour, minute: d.minute },
            )))
        &&& (pre.draft matches Some(d) && d.id is None && pre.next_alarm_id == u32::MAX
            ==> Self::alarms_unchanged(pre, post) && r is None)
        &&& Self::clock_unchanged(pre, post)
        &&& Self::stopwatch_unchanged(pre, post)
        &&& Self::timer_unchanged(pre, post)
    }

    pub fn save_draft(&mut self) -> (r: Option<NotificationRequest>)
        requires
            old(self).wf(),
        ensures
            final(self).wf(),
            Self::save_draft_post(*old(self), *final(self), r),
    {
        let draft = self.draft.take();
        match draft {
            None => None,
            Some(d) => {
                match d.id {
                    Some(target) => {
                        let n = self.alarms.len();
                        let mut i: usize = 0;
                        while i < n
                            invariant
                                old(self).wf(),
                                old(self).draft == Some(d),
                                d.id == Some(target),
                                self.alarms == old(self).alarms,
                                self.next_alarm_id == old(self).next_alarm_id,
                                self.draft is None,
                                Self::clock_unchanged(*old(self), *self),
                                Self::stopwatch_unchanged(*old(self), *self),
                                Self::timer_unchanged(*old(self), *self),
                                n == self.alarms@.len(),
                                i <= n,
                                forall|j: int|
                                    0 <= j < i ==> (#[trigger] self.alarms@[j]).id != target,
                            decreases n - i,
                        {
                            if self.alarms[i].id == target {
                                let updated = AlarmItem {
                                    id: self.alarms[i].id,
                                    hour: d.hour,
                                    minute: d.minute,
                                    label: d.label.clone(),
                                    enabled: self.alarms[i].enabled,
                                    last_fired: self.alarms[i].last_fired,
                                };
                                self.alarms[i] = updated;
                                proof {
                                    assert forall|j: int|
                                        0 <= j < old(self).alarms@.len() && (#[trigger] old(
                                            self,
                                        ).alarms@[j]).id == target implies j == i by {
                                        if j < i as int {
                                            assert(old(self).alarms@[j].id != target);
                                        }
                                    };
                                }
                                return None;
                            }
                            i += 1;
                        }
                        proof {
                            assert forall|j: int|
                                0 <= j < old(self).alarms@.len() implies (#[trigger] old(
                                self,
                            ).alarms@[j]).id != target by {
                                assert(old(self).alarms@[j] == self.alarms@[j]);
                            };
                        }
                        None
                    },
                    None => {
                        if self.next_alarm_id < u32::MAX {
                            let id = self.next_alarm_id;
                            let hour = d.hour;
                            let minute = d.minute;
                            self.alarms.push(
                                AlarmItem {
                                    id,
                                    hour: d.hour,
                                    minute: d.minute,
                                    label: d.label,
                                    enabled: true,
                                    last_fired: None,
                                },
                            );
                            self.next_alarm_id = id + 1;
                            Some(NotificationRequest::AlarmSet { hour, minute })
                        } else {
                            None
                        }
                    },
                }
            },
        }
    }

    /// Advances the tracker to the instant `now`: replaces the clock snapshot,
    /// adds the elapsed wall time to a running stopwatch, counts it down from
    /// a running timer (announcing the one run-to-zero transition), and fires
    /// every enabled alarm whose time of day `now` lands on at the top of a
    /// minute, at most once per calendar minute.  Out-of-order ticks are
    /// tolerated: wall time is measured from the latest tick seen so far, and
    /// a tick that lies before it contributes zero.
    pub open spec fn tick_post(
        pre: TimeTracker,
        post: TimeTracker,
        now: Timestamp,
        out: Seq<NotificationRequest>,
    ) -> bool {
        &&& post.clock == now
        &&& post.last_tick == later_of(pre.last_tick, now)
        &&& post.stopwatch_running == pre.stopwatch_running
        &&& post.stopwatch_elapsed_ms == stopwatch_step(
            pre.stopwatch_elapsed_ms as int,
            pre.stopwatch_running,
            delta_ms(pre.last_tick, now),
        )
        &&& post.timer_duration_ms == pre.timer_duration_ms
        &&& ({
            let run = timer_step(
                TimerRun {
                    remaining: pre.timer_remaining_ms as int,
                    running: pre.timer_running,
                    expiries: 0,
                },
                delta_ms(pre.last_tick, now),
            );
            &&& post.timer_remaining_ms == run.remaining
            &&& post.timer_running == run.running
            &&& out == (if run.expiries > 0 {
                seq![NotificationRequest::TimerExpired]
            } else {
                Seq::<NotificationRequest>::empty()
            }) + fired_notifs(pre.alarms@, now)
        })
        &&& post.next_alarm_id == pre.next_alarm_id
        &&& post.draft == pre.draft
        &&& post.alarms@.len() == pre.alarms@.len()
        &&& forall|i: int|
            0 <= i < pre.alarms@.len() ==> post.alarms@[i] == mark_fired(
                #[trigger] pre.alarms@[i],
                now,
            )
    }

    pub fn tick(&mut self, now: Timestamp) -> (r: Vec<NotificationRequest>)
        requires
            old(self).wf(),
            now.wf(),
        ensures
            final(self).wf(),
            Self::tick_post(*old(self), *final(self), now, r@),
    {
        let now_total = now.total_ms_u64();
        let last_total = self.last_tick.total_ms_u64();
        let delta: u64 = if now_total >= last_total {
            now_total - last_total
        } else {
            0
        };
        let ghost g_delta = delta_ms(old(self).last_tick, now);
        let ghost g_run = timer_step(
            TimerRun {
                remaining: old(self).timer_remaining_ms as int,
                running: old(self).timer_running,
                expiries: 0,
            },
            g_delta,
        );
        self.clock = now;
        if now_total >= last_total {
            self.last_tick = now;
        }
        let mut out: Vec<NotificationRequest> = Vec::new();
        if self.stopwatch_running {
            self.stopwatch_elapsed_ms = self.stopwatch_elapsed_ms + delta;
        }
        if self.timer_running {
            if delta >= self.timer_remaining_ms {
                self.timer_remaining_ms = 0;
                self.timer_running = false;
                out.push(NotificationRequest::TimerExpired);
            } else {
                self.timer_remaining_ms = self.timer_remaining_ms - delta;
            }
        }
        let ghost timer_out = out@;
        proof {
            lemma_time_component_bounds(now);
            assert(out@ =~= timer_out + fired_notifs(old(self).alarms@.take(0), now));
        }
        let nh = now.hour();
        let nmin = now.minute();
        let nsec = now.second();
        let nmod = now.minute_of_day();
        let n = self.alarms.len();
        let mut i: usize = 0;
        while i < n
            invariant
                old(self).wf(),
                now.wf(),
                n == self.alarms@.len(),
                n == old(self).alarms@.len(),
                i <= n,
                nh == now.spec_hour(),
                nmin == now.spec_minute(),
                nsec == now.spec_second(),
                nmod == now.spec_minute_of_day(),
                nmod < 1440,
                g_delta == delta_ms(old(self).last_tick, now),
                g_run == timer_step(
                    TimerRun {
                        remaining: old(self).timer_remaining_ms as int,
                        running: old(self).timer_running,
                        expiries: 0,
                    },
                    g_delta,
                ),
                self.clock == now,
                self.last_tick == later_of(old(self).last_tick, now),
                self.stopwatch_running == old(self).stopwatch_running,
                self.stopwatch_elapsed_ms == stopwatch_step(
                    old(self).stopwatch_elapsed_ms as int,
                    old(self).stopwatch_running,
                    g_delta,
                ),
                self.timer_duration_ms == old(self).timer_duration_ms,
                self.timer_remaining_ms == g_run.remaining,
                self.timer_running == g_run.running,
                self.next_alarm_id == old(self).next_alarm_id,
                self.draft == old(self).draft,
                timer_out == (if g_run.expiries > 0 {
                    seq![NotificationRequest::TimerExpired]
                } else {
                    Seq::<NotificationRequest>::empty()
                }),
                forall|j: int|
                    0 <= j < i ==> self.alarms@[j] == mark_fired(
                        #[trigger] old(self).alarms@[j],
                        now,
                    ),
                forall|j: int| i <= j < n ==> self.alarms@[j] == old(self).alarms@[j],
                out@ == timer_out + fired_notifs(old(self).alarms@.take(i as int), now),
            decreases n - i,
        {
            let already = match self.alarms[i].last_fired {
                Some(f) => f.day == now.day && f.minute_of_day == nmod,
                None => false,
            };
            let fires = self.alarms[i].enabled && self.alarms[i].hour == nh
                && self.alarms[i].minute == nmin && nsec == 0 && !already;
            proof {
                assert(self.alarms@[i as int] == old(self).alarms@[i as int]);
                assert(fires == alarm_should_fire(old(self).alarms@[i as int], now));
                let pre = old(self).alarms@;
                assert(pre.take(i as int + 1).drop_last() =~= pre.take(i as int));
                assert(pre.take(i as int + 1).last() == pre[i as int]);
            }
            if fires {
                let label = self.alarms[i].label.clone();
                out.push(
                    NotificationRequest::AlarmFired {
                        label,
                        hour: self.alarms[i].hour,
                        minute: self.alarms[i].minute,
                    },
                );
                let updated = AlarmItem {
                    id: self.alarms[i].id,
                    hour: self.alarms[i].hour,
                    minute: self.alarms[i].minute,
                    label: self.alarms[i].label.clone(),
                    enabled: self.alarms[i].enabled,
                    last_fired: Some(FiredAt { day: now.day, minute_of_day: nmod }),
                };
                self.alarms[i] = updated;
            }
            i += 1;
        }
        proof {
            assert(old(self).alarms@.take(n as int) =~= old(self).alarms@);
            assert forall|j: int| 0 <= j < self.alarms@.len() implies (#[trigger] self.alarms@[j]).wf()
                && self.alarms@[j].id < self.next_alarm_id by {
                assert(self.alarms@[j] == mark_fired(old(self).alarms@[j], now));
            };
            assert forall|p: int, q: int|
                0 <= p < q < self.alarms@.len() implies self.alarms@[p].id
                != self.alarms@[q].id by {
                assert(self.alarms@[p].id == old(self).alarms@[p].id);
                assert(self.alarms@[q].id == old(self).alarms@[q].id);
            };
        }
        out
    }

    /// Applies one command and returns the notifications it emitted: the
    /// single entry point a host event loop needs.  Each arm is the method of
    /// the same action, so each arm's effect is the one that method's
    /// postcondition states.
    pub fn apply_command(&mut self, cmd: Command) -> (r: Vec<NotificationRequest>)
        requires
            old(self).wf(),
            cmd matches Command::Tick(now) ==> now.wf(),
        ensures
            final(self).wf(),
            cmd matches Command::Tick(now) ==> Self::tick_post(*old(self), *final(self), now, r@),
            cmd matches Command::StartStopwatch ==> Self::start_stopwatch_post(
                *old(self),
                *final(self),
            ) && r@ =~= Seq::<NotificationRequest>::empty(),
            cmd matches Command::StopStopwatch ==> r@.len() == 1 && Self::stop_stopwatch_post(
                *old(self),
                *final(self),
                r@[0],
            ),
            cmd matches Command::ResetStopwatch ==> Self::reset_stopwatch_post(
                *old(self),
                *final(self),
            ) && r@ =~= Seq::<NotificationRequest>::empty(),
            cmd matches Command::StartTimer ==> Self::start_timer_post(*old(self), *final(self))
                && r@ =~= Seq::<NotificationRequest>::empty(),
            cmd matches Command::StopTimer ==> Self::stop_timer_post(*old(self), *final(self))
                && r@ =~= Seq::<NotificationRequest>::empty(),
            cmd matches Command::ResetTimer ==> Self::reset_timer_post(*old(self), *final(self))
                && r@ =~= Seq::<NotificationRequest>::empty(),
            cmd matches Command::SetTimerMinutes(minutes) ==> Self::set_timer_minutes_post(
                *old(self),
                *final(self),
                minutes,
            ) && r@ =~= Seq::<NotificationRequest>::empty(),
            cmd matches Command::SetTimerSeconds(seconds) ==> Self::set_timer_seconds_post(
                *old(self),
                *final(self),
                seconds,
            ) && r@ =~= Seq::<NotificationRequest>::empty(),
            cmd matches Command::AddAlarm ==> Self::begin_new_alarm_post(*old(self), *final(self))
                && r@ =~= Seq::<NotificationRequest>::empty(),
            cmd matches Command::EditAlarm(id) ==> Self::begin_edit_alarm_post(
                *old(self),
                *final(self),
                id,
            ) && r@ =~= Seq::<NotificationRequest>::empty(),
            cmd matches Command::DeleteAlarm(id) ==> Self::delete_alarm_post(
                *old(self),
                *final(self),
                id,
            ) && r@ =~= Seq::<NotificationRequest>::empty(),
            cmd matches Command::ToggleAlarm(id) ==> Self::toggle_alarm_post(
                *old(self),
                *final(self),
                id,
            ) && r@ =~= Seq::<NotificationRequest>::empty(),
            cmd matches Command::SaveAlarm ==> ({
                ||| (r@.len() == 1 && Self::save_draft_post(*old(self), *final(self), Some(r@[0])))
                ||| (r@ =~= Seq::<NotificationRequest>::empty() && Self::save_draft_post(
                    *old(self),
                    *final(self),
                    None,
                ))
            }),
            cmd matches Command::CancelAlarmEdit ==> Self::cancel_draft_post(
                *old(self),
                *final(self),
            ) && r@ =~= Seq::<NotificationRequest>::empty(),
            cmd matches Command::AlarmEditHour(hour) ==> Self::update_draft_hour_post(
                *old(self),
                *final(self),
                hour,
            ) && r@ =~= Seq::<NotificationRequest>::empty(),
            cmd matches Command::AlarmEditMinute(minute) ==> Self::update_draft_minute_post(
                *old(self),
                *final(self),
                minute,
            ) && r@ =~= Seq::<NotificationRequest>::empty(),
            cmd matches Command::AlarmEditLabel(label) ==> Self::update_draft_label_post(
                *old(self),
                *final(self),
                label,
            ) && r@ =~= Seq::<NotificationRequest>::empty(),
    {
        match cmd {
            Command::Tick(now) => self.tick(now),
            Command::StartStopwatch => {
                self.start_stopwatch();
                Vec::new()
            },
            Command::StopStopwatch => {
                let notif = self.stop_stopwatch();
                let mut out: Vec<NotificationRequest> = Vec::new();
                out.push(notif);
                out
            },
            Command::ResetStopwatch => {
                self.reset_stopwatch();
                Vec::new()
            },
            Command::StartTimer => {
                self.start_timer();
                Vec::new()
            },
            Command::StopTimer => {
                self.stop_timer();
                Vec::new()
            },
            Command::ResetTimer => {
                self.reset_timer();
                Vec::new()
            },
            Command::SetTimerMinutes(minutes) => {
                self.set_timer_minutes(minutes);
                Vec::new()
            },
            Command::SetTimerSeconds(seconds) => {
                self.set_timer_seconds(seconds);
                Vec::new()
            },
            Command::AddAlarm => {
                self.begin_new_alarm();
                Vec::new()
            },
            Command::EditAlarm(id) => {
                self.begin_edit_alarm(id);
                Vec::new()
            },
            Command::DeleteAlarm(id) => {
                self.delete_alarm(id);
                Vec::new()
            },
            Command::ToggleAlarm(id) => {
                self.toggle_alarm(id);
                Vec::new()
            },
            Command::SaveAlarm => {
                let notif = self.save_draft();
                let mut out: Vec<NotificationRequest> = Vec::new();
                match notif {
                    Some(n) => {
                        out.push(n);
                    },
                    None => {},
                }
                out
            },
            Command::CancelAlarmEdit => {
                self.cancel_draft();
                Vec::new()
            },
            Command::AlarmEditHour(hour) => {
                self.update_draft_hour(hour);
                Vec::new()
            },
            Command::AlarmEditMinute(minute) => {
                self.update_draft_minute(minute);
                Vec::new()
            },
            Command::AlarmEditLabel(label) => {
                self.update_draft_label(label);
                Vec::new()
            },
        }
    }
}

} // verus!
