//! Scenario tests for alarms: firing, per-minute deduplication, and the
//! create/edit draft lifecycle.

use cosmic_watch::time::Timestamp;
use cosmic_watch::tracker::{Command, NotificationRequest, TimeTracker};

fn ts(day: u32, hour: u32, minute: u32, second: u32, millis: u32) -> Timestamp {
    Timestamp::from_hms(day, hour, minute, second, millis)
}

/// Creates an enabled alarm at `hour:minute` with the given label and returns
/// its id.
fn add_alarm(tr: &mut TimeTracker, hour: u32, minute: u32, label: &str) -> u32 {
    tr.begin_new_alarm();
    tr.update_draft_hour(hour);
    tr.update_draft_minute(minute);
    tr.update_draft_label(label.to_string());
    let id = tr.next_alarm_id;
    let notif = tr.save_draft();
    assert_eq!(notif, Some(NotificationRequest::AlarmSet { hour, minute }));
    id
}

#[test]
fn alarm_fires_once_per_minute_and_again_next_day() {
    let mut tr = TimeTracker::new(ts(0, 8, 0, 0, 0));
    add_alarm(&mut tr, 8, 30, "wake");
    // A tick landing on 08:30:00 fires the alarm.
    let notifs = tr.tick(ts(0, 8, 30, 0, 0));
    assert_eq!(
        notifs,
        vec![NotificationRequest::AlarmFired { label: "wake".to_string(), hour: 8, minute: 30 }]
    );
    // No further tick of the same minute fires it again, not even more ticks
    // within second zero.
    assert!(tr.tick(ts(0, 8, 30, 0, 100)).is_empty());
    assert!(tr.tick(ts(0, 8, 30, 0, 900)).is_empty());
    assert!(tr.tick(ts(0, 8, 30, 30, 0)).is_empty());
    assert!(tr.tick(ts(0, 8, 30, 59, 900)).is_empty());
    // The next day at 08:30:00 it fires again.
    let notifs = tr.tick(ts(1, 8, 30, 0, 0));
    assert_eq!(
        notifs,
        vec![NotificationRequest::AlarmFired { label: "wake".to_string(), hour: 8, minute: 30 }]
    );
}

#[test]
fn alarm_fires_only_at_second_zero() {
    let mut tr = TimeTracker::new(ts(0, 8, 0, 0, 0));
    add_alarm(&mut tr, 8, 30, "late");
    // The tick cadence skipped second zero of the matching minute: missed.
    assert!(tr.tick(ts(0, 8, 30, 1, 0)).is_empty());
    assert!(tr.tick(ts(0, 8, 30, 2, 0)).is_empty());
}

#[test]
fn disabled_alarm_does_not_fire() {
    let mut tr = TimeTracker::new(ts(0, 8, 0, 0, 0));
    let id = add_alarm(&mut tr, 8, 30, "off");
    tr.toggle_alarm(id);
    assert!(!tr.alarms[0].enabled);
    assert!(tr.tick(ts(0, 8, 30, 0, 0)).is_empty());
    // Toggling it back re-enables it.
    tr.toggle_alarm(id);
    assert!(tr.alarms[0].enabled);
    assert_eq!(tr.tick(ts(0, 8, 31, 0, 0)).len(), 0);
    assert_eq!(tr.tick(ts(1, 8, 30, 0, 0)).len(), 1);
}

#[test]
fn multiple_alarms_fire_in_list_order() {
    let mut tr = TimeTracker::new(ts(0, 8, 0, 0, 0));
    add_alarm(&mut tr, 9, 0, "first");
    add_alarm(&mut tr, 9, 0, "second");
    add_alarm(&mut tr, 10, 0, "other");
    let notifs = tr.tick(ts(0, 9, 0, 0, 0));
    assert_eq!(
        notifs,
        vec![
            NotificationRequest::AlarmFired { label: "first".to_string(), hour: 9, minute: 0 },
            NotificationRequest::AlarmFired { label: "second".to_string(), hour: 9, minute: 0 },
        ]
    );
}

#[test]
fn new_alarm_draft_seeds_from_clock_and_clamps() {
    let mut tr = TimeTracker::new(ts(0, 14, 45, 30, 0));
    tr.begin_new_alarm();
    let draft = tr.draft.clone().unwrap();
    assert_eq!(draft.id, None);
    assert_eq!(draft.hour, 14);
    assert_eq!(draft.minute, 45);
    assert_eq!(draft.label, "");
    // Out-of-range input is clamped, not rejected.
    tr.update_draft_hour(24);
    tr.update_draft_minute(60);
    let draft = tr.draft.clone().unwrap();
    assert_eq!(draft.hour, 23);
    assert_eq!(draft.minute, 59);
}

#[test]
fn save_new_alarm_assigns_fresh_ids() {
    let mut tr = TimeTracker::new(ts(0, 0, 0, 0, 0));
    let a = add_alarm(&mut tr, 6, 0, "a");
    let b = add_alarm(&mut tr, 7, 0, "b");
    assert_eq!(a, 1);
    assert_eq!(b, 2);
    assert!(tr.draft.is_none());
    assert_eq!(tr.alarms.len(), 2);
    assert!(tr.alarms[0].enabled && tr.alarms[1].enabled);
    // Deleting never frees an id for reuse.
    tr.delete_alarm(a);
    let c = add_alarm(&mut tr, 8, 0, "c");
    assert_eq!(c, 3);
}

#[test]
fn edit_alarm_updates_in_place() {
    let mut tr = TimeTracker::new(ts(0, 0, 0, 0, 0));
    let id = add_alarm(&mut tr, 6, 0, "early");
    tr.begin_edit_alarm(id);
    let draft = tr.draft.clone().unwrap();
    assert_eq!(draft.id, Some(id));
    assert_eq!(draft.hour, 6);
    assert_eq!(draft.minute, 0);
    assert_eq!(draft.label, "early");
    tr.update_draft_hour(7);
    tr.update_draft_label("later".to_string());
    let notif = tr.save_draft();
    assert_eq!(notif, None);
    assert!(tr.draft.is_none());
    assert_eq!(tr.alarms.len(), 1);
    assert_eq!(tr.alarms[0].id, id);
    assert_eq!(tr.alarms[0].hour, 7);
    assert_eq!(tr.alarms[0].minute, 0);
    assert_eq!(tr.alarms[0].label, "later");
}

#[test]
fn edit_of_unknown_alarm_is_ignored() {
    let mut tr = TimeTracker::new(ts(0, 0, 0, 0, 0));
    add_alarm(&mut tr, 6, 0, "only");
    tr.begin_edit_alarm(99);
    assert!(tr.draft.is_none());
}

#[test]
fn delete_mid_edit_drops_the_save() {
    let mut tr = TimeTracker::new(ts(0, 0, 0, 0, 0));
    let id = add_alarm(&mut tr, 6, 0, "doomed");
    tr.begin_edit_alarm(id);
    tr.delete_alarm(id);
    assert!(tr.alarms.is_empty());
    let notif = tr.save_draft();
    // The save is silently dropped: the draft is cleared and the deleted
    // alarm is not resurrected.
    assert_eq!(notif, None);
    assert!(tr.draft.is_none());
    assert!(tr.alarms.is_empty());
}

#[test]
fn delete_and_toggle_of_unknown_ids_are_no_ops() {
    let mut tr = TimeTracker::new(ts(0, 0, 0, 0, 0));
    add_alarm(&mut tr, 6, 0, "kept");
    tr.delete_alarm(42);
    tr.toggle_alarm(42);
    assert_eq!(tr.alarms.len(), 1);
    assert!(tr.alarms[0].enabled);
}

#[test]
fn cancel_draft_discards_everything() {
    let mut tr = TimeTracker::new(ts(0, 0, 0, 0, 0));
    tr.begin_new_alarm();
    tr.update_draft_label("gone".to_string());
    tr.cancel_draft();
    assert!(tr.draft.is_none());
    assert!(tr.alarms.is_empty());
}

#[test]
fn begin_new_alarm_overwrites_prior_draft() {
    let mut tr = TimeTracker::new(ts(0, 5, 10, 0, 0));
    let id = add_alarm(&mut tr, 6, 0, "target");
    tr.begin_edit_alarm(id);
    tr.begin_new_alarm();
    let draft = tr.draft.clone().unwrap();
    // Last writer wins, without a warning: the edit draft is gone.
    assert_eq!(draft.id, None);
    assert_eq!(draft.hour, 5);
    assert_eq!(draft.minute, 10);
}

#[test]
fn commands_drive_the_same_transitions() {
    let mut tr = TimeTracker::new(ts(0, 8, 0, 0, 0));
    assert!(tr.apply_command(Command::AddAlarm).is_empty());
    assert!(tr.apply_command(Command::AlarmEditHour(8)).is_empty());
    assert!(tr.apply_command(Command::AlarmEditMinute(30)).is_empty());
    assert!(tr.apply_command(Command::AlarmEditLabel("cmd".to_string())).is_empty());
    let notifs = tr.apply_command(Command::SaveAlarm);
    assert_eq!(notifs, vec![NotificationRequest::AlarmSet { hour: 8, minute: 30 }]);
    assert!(tr.apply_command(Command::StartStopwatch).is_empty());
    let notifs = tr.apply_command(Command::Tick(ts(0, 8, 30, 0, 0)));
    assert_eq!(
        notifs,
        vec![NotificationRequest::AlarmFired { label: "cmd".to_string(), hour: 8, minute: 30 }]
    );
    assert_eq!(tr.stopwatch_elapsed_ms, 30 * 60_000);
    let notifs = tr.apply_command(Command::StopStopwatch);
    assert_eq!(notifs, vec![NotificationRequest::StopwatchStopped { elapsed_ms: 30 * 60_000 }]);
}
