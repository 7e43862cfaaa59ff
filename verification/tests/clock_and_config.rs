//! Tests of the system-clock reading and the configuration value.

use cosmic_watch::clock::now_timestamp;
use cosmic_watch::config::Config;
use cosmic_watch::time::Timestamp;

#[test]
fn now_timestamp_is_well_formed() {
    let t = now_timestamp();
    assert!(t.msec < 86_400_000);
    assert!(t.hour() < 24);
    assert!(t.minute() < 60);
    assert!(t.second() < 60);
    // Any plausible run of this test happens well after 1 CE.
    assert!(t.day > 700_000);
}

#[test]
fn now_timestamp_tracks_real_time() {
    // Two reads a moment apart never run backwards by more than a day skip
    // (and on any sane clock not at all); check monotonicity coarsely.
    let a = now_timestamp();
    let b = now_timestamp();
    assert!(b.total_ms_u64() + 2_000 >= a.total_ms_u64());
}

#[test]
fn default_config_is_empty() {
    let c = Config::default();
    let d = c.clone();
    assert_eq!(c, d);
}

#[test]
fn timestamps_compare_by_fields() {
    let a = Timestamp::new(3, 1_000);
    let b = Timestamp::from_hms(3, 0, 0, 1, 0);
    assert_eq!(a, b);
}
