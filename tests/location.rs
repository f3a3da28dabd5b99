use geo_loc::location::{
    accuracy_from_bits, location_from_fix, timestamp_from_epoch_seconds, Location, NativeFix,
    MAX_UTC_SECS, MIN_UTC_SECS,
    Timestamp,
};

fn ts(secs: i64, nanos: u32) -> Option<Timestamp> {
    Some(Timestamp { secs, nanos })
}

#[test]
fn negative_accuracy_is_absent() {
    assert_eq!(accuracy_from_bits((-1.0f64).to_bits()), None);
}

#[test]
fn nan_and_negative_infinity_accuracy_are_absent() {
    assert_eq!(accuracy_from_bits(f64::NAN.to_bits()), None);
    assert_eq!(accuracy_from_bits((-f64::NAN).to_bits()), None);
    assert_eq!(accuracy_from_bits(f64::NEG_INFINITY.to_bits()), None);
}

#[test]
fn negative_zero_accuracy_is_kept() {
    assert_eq!(accuracy_from_bits((-0.0f64).to_bits()), Some((-0.0f64).to_bits()));
    assert_eq!(accuracy_from_bits(f64::INFINITY.to_bits()), Some(f64::INFINITY.to_bits()));
}

#[test]
fn positive_accuracy_is_kept() {
    assert_eq!(accuracy_from_bits(12.34f64.to_bits()), Some(12.34f64.to_bits()));
    assert_eq!(accuracy_from_bits(0.0f64.to_bits()), Some(0.0f64.to_bits()));
}

#[test]
fn fractional_timestamp_converts() {
    assert_eq!(timestamp_from_epoch_seconds(1700000000.5f64.to_bits()), ts(1700000000, 500_000_000));
}

#[test]
fn whole_and_zero_timestamps_convert() {
    assert_eq!(timestamp_from_epoch_seconds(0.0f64.to_bits()), ts(0, 0));
    assert_eq!(timestamp_from_epoch_seconds((-0.0f64).to_bits()), ts(0, 0));
    assert_eq!(timestamp_from_epoch_seconds(86400.0f64.to_bits()), ts(86400, 0));
    assert_eq!(timestamp_from_epoch_seconds(0.25f64.to_bits()), ts(0, 250_000_000));
}

#[test]
fn negative_timestamp_rounds_down() {
    assert_eq!(timestamp_from_epoch_seconds((-1.5f64).to_bits()), ts(-2, 500_000_000));
    assert_eq!(timestamp_from_epoch_seconds((-2.0f64).to_bits()), ts(-2, 0));
    assert_eq!(timestamp_from_epoch_seconds((-0.25f64).to_bits()), ts(-1, 750_000_000));
}

#[test]
fn tiny_timestamps_round_down() {
    let smallest = f64::from_bits(1);
    assert_eq!(timestamp_from_epoch_seconds(smallest.to_bits()), ts(0, 0));
    assert_eq!(timestamp_from_epoch_seconds((-smallest).to_bits()), ts(-1, 999_999_999));
}

#[test]
fn non_finite_or_huge_timestamps_do_not_convert() {
    assert_eq!(timestamp_from_epoch_seconds(f64::NAN.to_bits()), None);
    assert_eq!(timestamp_from_epoch_seconds(f64::INFINITY.to_bits()), None);
    assert_eq!(timestamp_from_epoch_seconds(1e300f64.to_bits()), None);
    assert_eq!(timestamp_from_epoch_seconds(9.3e18f64.to_bits()), None);
    assert_eq!(timestamp_from_epoch_seconds((-9.223372036854775808e18f64).to_bits()), ts(i64::MIN, 0));
}

#[test]
fn native_fix_becomes_location() {
    let fix = NativeFix {
        latitude: 51.5f64.to_bits(),
        longitude: (-0.12f64).to_bits(),
        accuracy: (-1.0f64).to_bits(),
        timestamp: 1700000000.5f64.to_bits(),
    };
    let l = location_from_fix(&fix, Timestamp { secs: 9, nanos: 9 });
    assert_eq!(l.latitude, 51.5f64.to_bits());
    assert_eq!(l.longitude, (-0.12f64).to_bits());
    assert_eq!(l.accuracy_m, None);
    assert_eq!(l.provider, "corelocation");
    assert_eq!(l.timestamp, Timestamp { secs: 1700000000, nanos: 500_000_000 });
}

#[test]
fn out_of_range_fix_time_uses_now() {
    let fix = NativeFix {
        latitude: 1.0f64.to_bits(),
        longitude: 2.0f64.to_bits(),
        accuracy: 5.0f64.to_bits(),
        timestamp: 1e18f64.to_bits(),
    };
    let now = Timestamp { secs: 1_750_000_000, nanos: 7 };
    let l = location_from_fix(&fix, now);
    assert_eq!(l.accuracy_m, Some(5.0f64.to_bits()));
    assert_eq!(l.timestamp, now);
    let nan_time = NativeFix { timestamp: f64::NAN.to_bits(), ..fix };
    assert_eq!(location_from_fix(&nan_time, now).timestamp, now);
}

#[test]
fn location_new_keeps_fields() {
    let t = Timestamp { secs: 5, nanos: 6 };
    let l = Location::new(1, 2, Some(3), "ip", t);
    assert_eq!((l.latitude, l.longitude, l.accuracy_m, l.provider.as_str(), l.timestamp), (1, 2, Some(3), "ip", t));
}

#[test]
fn converted_timestamp_is_the_expected_utc_instant() {
    let t = timestamp_from_epoch_seconds(1700000000.5f64.to_bits()).unwrap();
    let dt = chrono::DateTime::from_timestamp(t.secs, t.nanos).unwrap();
    assert_eq!(dt.format("%Y-%m-%dT%H:%M:%S%.fZ").to_string(), "2023-11-14T22:13:20.500Z");
}

#[test]
fn utc_range_matches_chrono() {
    assert_eq!(chrono::DateTime::<chrono::Utc>::MIN_UTC.timestamp(), MIN_UTC_SECS);
    assert_eq!(chrono::DateTime::<chrono::Utc>::MAX_UTC.timestamp(), MAX_UTC_SECS);
}

#[test]
fn fix_time_at_the_range_edges() {
    let now = Timestamp { secs: 42, nanos: 0 };
    let at = |t: f64| NativeFix { latitude: 0, longitude: 0, accuracy: 0, timestamp: t.to_bits() };
    assert_eq!(location_from_fix(&at(MAX_UTC_SECS as f64), now).timestamp, Timestamp { secs: MAX_UTC_SECS, nanos: 0 });
    assert_eq!(location_from_fix(&at((MAX_UTC_SECS + 1) as f64), now).timestamp, now);
    assert_eq!(location_from_fix(&at(MIN_UTC_SECS as f64), now).timestamp, Timestamp { secs: MIN_UTC_SECS, nanos: 0 });
    assert_eq!(location_from_fix(&at((MIN_UTC_SECS - 1) as f64), now).timestamp, now);
}
