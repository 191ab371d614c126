use igc_records::error::IGCError;
use igc_records::records::util::{Coordinate, Date, Latitude, Longitude, Time};

#[test]
fn time_parses_exact_values() {
    let t = Time::parse("235959").unwrap();
    assert_eq!(t, Time { h: 23, m: 59, s: 59 });
    let t = Time::parse("000000").unwrap();
    assert_eq!(t, Time { h: 0, m: 0, s: 0 });
}

#[test]
fn time_rejects_out_of_range_components() {
    assert!(Time::parse("240000").is_err());
    assert!(Time::parse("006000").is_err());
    assert!(Time::parse("000060").is_err());
}

#[test]
fn time_rejects_wrong_length_and_non_digits() {
    assert!(Time::parse("12345").is_err());
    assert!(Time::parse("1234567").is_err());
    assert!(Time::parse("12a456").is_err());
    match Time::parse("12a456") {
        Err(IGCError::TimeInitError(m)) => assert_eq!(m, "'12a456' is not a valid time"),
        _ => panic!("expected a time init error"),
    }
}

#[test]
fn from_hms_rejects_out_of_range_components() {
    assert!(Time::from_hms(24, 0, 0).is_err());
    assert!(Time::from_hms(0, 60, 0).is_err());
    assert!(Time::from_hms(0, 0, 60).is_err());
    assert_eq!(Time::from_hms(16, 2, 40).unwrap(), Time { h: 16, m: 2, s: 40 });
}

#[test]
fn date_parses_exact_values() {
    assert_eq!(Date::parse("070323").unwrap(), Date { d: 7, m: 3, y: 23 });
    assert_eq!(Date::parse("311299").unwrap(), Date { d: 31, m: 12, y: 99 });
}

#[test]
fn date_rejects_non_digits_and_wrong_length() {
    match Date::parse("07A323") {
        Err(IGCError::DateInitError(m)) => assert_eq!(m, "'07A323' is not a valid date"),
        _ => panic!("expected a date init error"),
    }
    assert!(Date::parse("07032").is_err());
    assert!(Date::parse("0703233").is_err());
}

#[test]
fn coordinate_parses_exact_values() {
    let c = Coordinate::parse("3835269S17609420E").unwrap();
    assert_eq!(c.latitude, Latitude { degrees: 38, minute_thousandths: 35269, is_north: false });
    assert_eq!(c.longitude, Longitude { degrees: 176, minute_thousandths: 9420, is_east: true });
    let c = Coordinate::parse("0000000N00000000W").unwrap();
    assert_eq!(c.latitude, Latitude { degrees: 0, minute_thousandths: 0, is_north: true });
    assert_eq!(c.longitude, Longitude { degrees: 0, minute_thousandths: 0, is_east: false });
}

#[test]
fn coordinate_rejects_malformed_blocks() {
    // bad latitude hemisphere letter
    assert!(Coordinate::parse("3835269X17609420E").is_err());
    // bad longitude hemisphere letter
    assert!(Coordinate::parse("3835269S17609420Z").is_err());
    // non-digit inside a digit span
    assert!(Coordinate::parse("38E5269S17609420E").is_err());
    // wrong length
    assert!(Coordinate::parse("3835269S17609420").is_err());
    match Coordinate::parse("3835269S17609420") {
        Err(IGCError::CoordinateInitError(m)) => {
            assert_eq!(m, "'3835269S17609420' is not a valid coordinate")
        }
        _ => panic!("expected a coordinate init error"),
    }
}
