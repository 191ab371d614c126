use igc_records::error::IGCError;
use igc_records::records::data_fix::DataFix;
use igc_records::records::util::Time;
use igc_records::StrWrapper;

#[test]
fn data_fix_parsed_correctly() {
    let data_fix = DataFix::parse("F160240Hello, world!").unwrap();
    assert_eq!(data_fix.time, Time::from_hms(16, 2, 40).unwrap());
    assert_eq!(data_fix.content, "Hello, world!".to_string().into());
}

#[test]
fn too_short() {
    assert!(DataFix::parse("F160").is_err())
}

#[test]
fn too_short_message_names_the_line() {
    match DataFix::parse("F160") {
        Err(IGCError::DataFixInitError(m)) => {
            assert_eq!(m, "'F160' is too short to be parsed as a data fix");
        }
        _ => panic!("expected a data fix init error"),
    }
}

#[test]
fn empty_content_is_kept_verbatim() {
    let data_fix = DataFix::parse("F160240").unwrap();
    assert_eq!(data_fix.time, Time::from_hms(16, 2, 40).unwrap());
    assert_eq!(data_fix.content, StrWrapper(String::new()));
}

#[test]
fn content_is_not_trimmed() {
    let data_fix = DataFix::parse("F000000  padded  ").unwrap();
    assert_eq!(data_fix.time, Time::from_hms(0, 0, 0).unwrap());
    assert_eq!(data_fix.content, "  padded  ".to_string().into());
}

#[test]
fn out_of_range_time_propagates_time_error() {
    match DataFix::parse("F256060note") {
        Err(IGCError::TimeInitError(m)) => {
            assert_eq!(m, "'256060' is not a valid time");
        }
        _ => panic!("expected a time init error"),
    }
}
