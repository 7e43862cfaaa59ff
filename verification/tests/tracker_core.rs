//! Scenario tests for the time-tracking core: stopwatch, timer and the
//! wall-clock tick.

use cosmic_watch::time::Timestamp;
use cosmic_watch::tracker::{NotificationRequest, TimeTracker};

fn ts(day: u32, hour: u32, minute: u32, second: u32, millis: u32) -> Timestamp {
    Timestamp::from_hms(day, hour, minute, second, millis)
}

#[test]
fn timestamp_components_round_trip() {
    let t = ts(7, 8, 30, 15, 250);
    assert_eq!(t.day, 7);
    assert_eq!(t.hour(), 8);
    assert_eq!(t.minute(), 30);
    assert_eq!(t.second(), 15);
    assert_eq!(t.minute_of_day(), 8 * 60 + 30);
    assert_eq!(t.total_ms_u64(), 7 * 86_400_000 + 8 * 3_600_000 + 30 * 60_000 + 15 * 1_000 + 250);
}

#[test]
fn new_tracker_is_idle() {
    let tr = TimeTracker::new(ts(0, 12, 0, 0, 0));
    assert!(!tr.stopwatch_running);
    assert_eq!(tr.stopwatch_elapsed_ms, 0);
    assert!(!tr.timer_running);
    assert_eq!(tr.timer_duration_ms, 300_000);
    assert_eq!(tr.timer_remaining_ms, 300_000);
    assert!(tr.alarms.is_empty());
    assert_eq!(tr.next_alarm_id, 1);
    assert!(tr.draft.is_none());
}

#[test]
fn stopped_stopwatch_is_frozen_by_ticks() {
    let mut tr = TimeTracker::new(ts(0, 9, 0, 0, 0));
    for i in 1..20u32 {
        let notifs = tr.tick(ts(0, 9, 0, i, 137));
        assert!(notifs.is_empty());
        assert_eq!(tr.stopwatch_elapsed_ms, 0);
        assert!(!tr.stopwatch_running);
    }
}

#[test]
fn running_stopwatch_gains_exact_wall_time() {
    let mut tr = TimeTracker::new(ts(0, 9, 0, 0, 0));
    tr.start_stopwatch();
    // Unevenly spaced ticks: 100 ms, 250 ms, 1 s, 650 ms.
    tr.tick(ts(0, 9, 0, 0, 100));
    tr.tick(ts(0, 9, 0, 0, 350));
    tr.tick(ts(0, 9, 0, 1, 350));
    tr.tick(ts(0, 9, 0, 2, 0));
    assert_eq!(tr.stopwatch_elapsed_ms, 2_000);
    assert!(tr.stopwatch_running);
}

#[test]
fn stopwatch_stop_reports_elapsed_and_repeats() {
    let mut tr = TimeTracker::new(ts(0, 9, 0, 0, 0));
    tr.start_stopwatch();
    tr.tick(ts(0, 9, 0, 1, 500));
    let first = tr.stop_stopwatch();
    assert_eq!(first, NotificationRequest::StopwatchStopped { elapsed_ms: 1_500 });
    // Stopping again re-emits the notification with the same elapsed value.
    let second = tr.stop_stopwatch();
    assert_eq!(second, NotificationRequest::StopwatchStopped { elapsed_ms: 1_500 });
}

#[test]
fn stopwatch_reset_clears_and_stops() {
    let mut tr = TimeTracker::new(ts(0, 9, 0, 0, 0));
    tr.start_stopwatch();
    tr.tick(ts(0, 9, 0, 5, 0));
    tr.reset_stopwatch();
    assert_eq!(tr.stopwatch_elapsed_ms, 0);
    assert!(!tr.stopwatch_running);
}

#[test]
fn out_of_order_tick_contributes_nothing() {
    let mut tr = TimeTracker::new(ts(0, 9, 0, 10, 0));
    tr.start_stopwatch();
    // A tick that lies before the last one seen is ignored by the delta.
    tr.tick(ts(0, 9, 0, 5, 0));
    assert_eq!(tr.stopwatch_elapsed_ms, 0);
    // The clock snapshot still shows the tick's instant.
    assert_eq!(tr.clock.second(), 5);
    // Wall time resumes from the latest instant seen so far.
    tr.tick(ts(0, 9, 0, 11, 0));
    assert_eq!(tr.stopwatch_elapsed_ms, 1_000);
}

#[test]
fn timer_counts_down_expires_once_and_stays_at_zero() {
    let mut tr = TimeTracker::new(ts(0, 10, 0, 0, 0));
    tr.set_timer_duration(0, 3);
    tr.start_timer();
    assert!(tr.timer_running);
    let notifs = tr.tick(ts(0, 10, 0, 1, 0));
    assert!(notifs.is_empty());
    assert_eq!(tr.timer_remaining_ms, 2_000);
    let notifs = tr.tick(ts(0, 10, 0, 3, 500));
    assert_eq!(notifs, vec![NotificationRequest::TimerExpired]);
    assert_eq!(tr.timer_remaining_ms, 0);
    assert!(!tr.timer_running);
    // Further ticks leave it at zero and never re-fire.
    let notifs = tr.tick(ts(0, 10, 0, 10, 0));
    assert!(notifs.is_empty());
    assert_eq!(tr.timer_remaining_ms, 0);
    assert!(!tr.timer_running);
}

#[test]
fn timer_expiry_end_to_end_at_hundred_millisecond_cadence() {
    // Five-minute timer, 3000 ticks of 100 ms each: it reaches exactly zero,
    // expires exactly once, and stops.
    let mut tr = TimeTracker::new(ts(0, 0, 0, 0, 0));
    assert_eq!(tr.timer_duration_ms, 300_000);
    tr.start_timer();
    let mut expiries = 0usize;
    for i in 1..=3000u64 {
        let total = i * 100;
        let now = ts(
            0,
            (total / 3_600_000) as u32,
            ((total / 60_000) % 60) as u32,
            ((total / 1_000) % 60) as u32,
            (total % 1_000) as u32,
        );
        for n in tr.tick(now) {
            if n == NotificationRequest::TimerExpired {
                expiries += 1;
            }
        }
    }
    assert_eq!(tr.timer_remaining_ms, 0);
    assert!(!tr.timer_running);
    assert_eq!(expiries, 1);
}

#[test]
fn timer_setters_recombine_minutes_and_seconds() {
    let mut tr = TimeTracker::new(ts(0, 0, 0, 0, 0));
    tr.set_timer_duration(5, 30);
    assert_eq!(tr.timer_duration_ms, 330_000);
    assert_eq!(tr.timer_remaining_ms, 330_000);
    // Setting only the minutes keeps the previously-set seconds component.
    tr.set_timer_minutes(2);
    assert_eq!(tr.timer_duration_ms, 150_000);
    assert_eq!(tr.timer_remaining_ms, 150_000);
    // Setting only the seconds keeps the whole minutes.
    tr.set_timer_seconds(5);
    assert_eq!(tr.timer_duration_ms, 125_000);
}

#[test]
fn timer_seconds_setter_clamps_to_fifty_nine() {
    let mut tr = TimeTracker::new(ts(0, 0, 0, 0, 0));
    tr.set_timer_duration(1, 90);
    assert_eq!(tr.timer_duration_ms, 119_000);
    tr.set_timer_seconds(600);
    assert_eq!(tr.timer_duration_ms, 119_000);
}

#[test]
fn timer_setter_while_running_jumps_remaining() {
    let mut tr = TimeTracker::new(ts(0, 0, 0, 0, 0));
    tr.set_timer_duration(0, 30);
    tr.start_timer();
    tr.tick(ts(0, 0, 0, 10, 0));
    assert_eq!(tr.timer_remaining_ms, 20_000);
    tr.set_timer_minutes(1);
    assert_eq!(tr.timer_remaining_ms, 90_000);
    assert!(tr.timer_running);
}

#[test]
fn timer_set_to_zero_stops_it() {
    let mut tr = TimeTracker::new(ts(0, 0, 0, 0, 0));
    tr.set_timer_duration(0, 10);
    tr.start_timer();
    tr.set_timer_duration(0, 0);
    assert_eq!(tr.timer_remaining_ms, 0);
    assert!(!tr.timer_running);
    // Starting a timer with nothing to count down leaves it stopped.
    tr.start_timer();
    assert!(!tr.timer_running);
}

#[test]
fn timer_stop_and_reset() {
    let mut tr = TimeTracker::new(ts(0, 0, 0, 0, 0));
    tr.set_timer_duration(0, 30);
    tr.start_timer();
    tr.tick(ts(0, 0, 0, 10, 0));
    tr.stop_timer();
    assert!(!tr.timer_running);
    assert_eq!(tr.timer_remaining_ms, 20_000);
    tr.reset_timer();
    assert_eq!(tr.timer_remaining_ms, 30_000);
    assert!(!tr.timer_running);
}
