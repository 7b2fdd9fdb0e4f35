use backend::clock::{add_days, add_seconds, unix_seconds_of, MAX_UTC_MICROS, MIN_UTC_MICROS};
use chrono::{DateTime, TimeDelta, Utc};

fn chrono_add_seconds(now: i64, secs: i64) -> Option<i64> {
    let start = DateTime::<Utc>::from_timestamp_micros(now)?;
    let delta = TimeDelta::try_seconds(secs)?;
    start.checked_add_signed(delta).map(|t| t.timestamp_micros())
}

fn chrono_add_days(now: i64, days: i64) -> Option<i64> {
    let start = DateTime::<Utc>::from_timestamp_micros(now)?;
    let delta = TimeDelta::try_days(days)?;
    start.checked_add_signed(delta).map(|t| t.timestamp_micros())
}

#[test]
fn utc_range_matches_chrono() {
    assert!(DateTime::<Utc>::from_timestamp_micros(MIN_UTC_MICROS).is_some());
    assert!(DateTime::<Utc>::from_timestamp_micros(MAX_UTC_MICROS).is_some());
    assert!(DateTime::<Utc>::from_timestamp_micros(MIN_UTC_MICROS - 1).is_none());
    assert!(DateTime::<Utc>::from_timestamp_micros(MAX_UTC_MICROS + 1).is_none());
}

#[test]
fn add_seconds_matches_chrono() {
    let nows = [0, -1, 1_700_000_000_123_456, MIN_UTC_MICROS, MAX_UTC_MICROS, MAX_UTC_MICROS - 5_000_000, i64::MAX, i64::MIN];
    let secs = [0, 1, -1, 5, 900, 9_223_372_036_854_775, -9_223_372_036_854_775, 9_223_372_036_854_776, i64::MAX, i64::MIN];
    for &n in &nows {
        for &s in &secs {
            assert_eq!(add_seconds(n, s), chrono_add_seconds(n, s), "{n} {s}");
        }
    }
}

#[test]
fn add_days_matches_chrono() {
    let nows = [0, 1_700_000_000_123_456, MAX_UTC_MICROS - 86_400_000_000, MIN_UTC_MICROS];
    let days = [0, 7, -7, 30, 106_751_991_167, 106_751_991_168, i64::MAX, i64::MIN];
    for &n in &nows {
        for &d in &days {
            assert_eq!(add_days(n, d), chrono_add_days(n, d), "{n} {d}");
        }
    }
}

#[test]
fn unix_seconds_rounds_down() {
    for us in [0, 1, 999_999, 1_000_000, -1, -999_999, -1_000_000, -1_000_001, MIN_UTC_MICROS, MAX_UTC_MICROS, i64::MIN, i64::MAX] {
        let expected = us.div_euclid(1_000_000);
        assert_eq!(unix_seconds_of(us), expected, "{us}");
    }
    let t = DateTime::<Utc>::from_timestamp_micros(-1_500_000).unwrap();
    assert_eq!(unix_seconds_of(-1_500_000), t.timestamp());
}
