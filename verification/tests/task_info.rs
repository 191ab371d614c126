use igc_records::error::IGCError;
use igc_records::records::task_info::{DeclarationTime, TaskInfo, TaskPoint};
use igc_records::records::util::{Date, Latitude, Longitude, Time};

#[test]
fn declaration_time_parsed_correctly() {
    if let Ok(TaskInfo::DeclarationTime(decl_time)) = TaskInfo::parse("C070323213339000000000103") {
        assert_eq!(decl_time.time, Time::from_hms(21, 33, 39).unwrap());
        assert_eq!(decl_time.date, Date { d: 7, m: 3, y: 23 })
    } else {
        assert!(false)
    }
}

#[test]
fn declaration_too_short() {
    assert!(TaskInfo::parse("C070323213339000000000").is_err());
    assert!(TaskInfo::parse("C0703232133390").is_err())
}

#[test]
fn task_point_parsed_correctly() {
    if let Ok(TaskInfo::TaskPoint(task_point)) = TaskInfo::parse("C3835269S17609420ETASA Taupo Start A") {
        assert_eq!(task_point.coordinate.latitude, Latitude {
            degrees: 38,
            minute_thousandths: 35269,
            is_north: false,
        });

        assert_eq!(task_point.coordinate.longitude, Longitude {
            degrees: 176,
            minute_thousandths: 9420,
            is_east: true,
        });

        assert_eq!(task_point.name.unwrap(), String::from("TASA Taupo Start A").into())
    } else {
        assert!(false)
    }
}

#[test]
fn task_point_of_exact_block_length_has_no_name() {
    if let Ok(TaskInfo::TaskPoint(task_point)) = TaskInfo::parse("C3835269S17609420E") {
        assert!(task_point.name.is_none());
    } else {
        panic!("expected a task point");
    }
}

#[test]
fn all_digit_span_always_selects_declaration_time() {
    // The sixteen characters at offsets one to sixteen are all digits, so the
    // declaration time leaf is chosen even though the block is also
    // coordinate-shaped in length.
    match TaskInfo::parse("C070323213339000000000103") {
        Ok(TaskInfo::DeclarationTime(_)) => {}
        _ => panic!("expected a declaration time record"),
    }
}

#[test]
fn non_digit_in_span_always_selects_task_point() {
    // The hemisphere letter at offset eight makes the span non-numeric, so
    // the task point leaf is chosen even on a line long enough for a
    // declaration time record.
    match TaskInfo::parse("C3835269S17609420ETASA Taupo Start A") {
        Ok(TaskInfo::TaskPoint(_)) => {}
        _ => panic!("expected a task point record"),
    }
}

#[test]
fn too_short_for_any_kind_message_names_the_line() {
    match TaskInfo::parse("C123") {
        Err(IGCError::TaskInfoInitError(m)) => {
            assert_eq!(m, "'C123' is too short to be parsed as kind of task info record");
        }
        _ => panic!("expected a task info init error"),
    }
}

#[test]
fn declaration_too_short_message_names_the_line() {
    match TaskInfo::parse("C070323213339000000000") {
        Err(IGCError::TaskInfoInitError(m)) => {
            assert_eq!(m, "'C070323213339000000000' is too short to be a declaration time record");
        }
        _ => panic!("expected a task info init error"),
    }
}

#[test]
fn out_of_range_time_in_declaration_propagates_time_error() {
    match TaskInfo::parse("C070323256060000000000103") {
        Err(IGCError::TimeInitError(m)) => {
            assert_eq!(m, "'256060' is not a valid time");
        }
        _ => panic!("expected a time init error"),
    }
}

#[test]
fn bad_hemisphere_letter_propagates_coordinate_error() {
    match TaskInfo::parse("C3835269X17609420ETASA Taupo Start A") {
        Err(IGCError::CoordinateInitError(m)) => {
            assert_eq!(m, "'3835269X17609420E' is not a valid coordinate");
        }
        _ => panic!("expected a coordinate init error"),
    }
}

#[test]
fn task_point_too_short_returns_typed_error() {
    match TaskPoint::parse("C3835269S") {
        Err(IGCError::TaskInfoInitError(m)) => {
            assert_eq!(m, "'C3835269S' is too short to be parsed as kind of task info record");
        }
        _ => panic!("expected a task info init error"),
    }
}

#[test]
fn get_extra_returns_the_trailing_text_as_a_copy() {
    if let Ok(TaskInfo::DeclarationTime(decl_time)) = TaskInfo::parse("C070323213339000000000103") {
        let first = decl_time.get_extra();
        let second = decl_time.get_extra();
        assert_eq!(first, "000000000103".to_string().into());
        // the accessor hands out independent copies, never the storage
        drop(first);
        assert_eq!(second, "000000000103".to_string().into());
    } else {
        panic!("expected a declaration time record");
    }
}

#[test]
fn new_stores_the_given_parts() {
    let date = Date { d: 7, m: 3, y: 23 };
    let time = Time::from_hms(21, 33, 39).unwrap();
    let decl = DeclarationTime::new(date, time, "tail".to_string().into());
    assert_eq!(decl.date, date);
    assert_eq!(decl.time, time);
    assert_eq!(decl.get_extra(), "tail".to_string().into());
}
