use mcli::errors::CmdError;
use mcli::time_cmd::{
    current_timestamp_lines, get_utc_offset, offset_from_local, parse_unit, print_current_timestamp,
    str_to_timestamp, time_run, timestamp_to_str, TimeUnit,
};

#[test]
fn test_time() {
    // String to timestamp.
    let format =
        time::format_description::parse("[year]-[month]-[day] [hour]:[minute]:[second]").unwrap();
    let time_str = "2021-09-21 09:00:31";
    let time = time::PrimitiveDateTime::parse(time_str, &format);
    match time {
        Ok(date_time) => {
            println!("current offset: {}", get_utc_offset().seconds);
            println!("converted: {}", date_time);
        }
        Err(e) => println!("conversion error: {}", e),
    }
}

#[test]
fn parse_unit_accepts_s_and_ms_only() {
    assert!(matches!(parse_unit("s"), Ok(TimeUnit::Seconds)));
    assert!(matches!(parse_unit("ms"), Ok(TimeUnit::Millis)));
    assert!(matches!(parse_unit("h"), Err(CmdError::UnsupportedUnit)));
    assert!(matches!(parse_unit(""), Err(CmdError::UnsupportedUnit)));
    assert!(matches!(parse_unit("MS"), Err(CmdError::UnsupportedUnit)));
}

#[test]
fn timestamp_to_str_fixed_offset() {
    let r = timestamp_to_str("1632186031", "s", 28800).unwrap();
    assert_eq!(r, vec!["formatted time: 2021-09-21 09:00:31".to_string()]);

    let r = timestamp_to_str("1632186031000", "ms", 28800).unwrap();
    assert_eq!(r, vec!["formatted time: 2021-09-21 09:00:31".to_string()]);
}

#[test]
fn timestamp_to_str_negative_is_before_epoch() {
    let r = timestamp_to_str("-1", "s", 0).unwrap();
    assert_eq!(r, vec!["formatted time: 1969-12-31 23:59:59".to_string()]);
}

#[test]
fn timestamp_to_str_rejects_bad_input() {
    assert!(matches!(
        timestamp_to_str("12x4", "s", 28800),
        Err(CmdError::InvalidFormat)
    ));
    assert!(matches!(
        timestamp_to_str("", "s", 28800),
        Err(CmdError::InvalidFormat)
    ));
    // An in-range integer that names a moment far outside any calendar.
    assert!(matches!(
        timestamp_to_str("99999999999999999999999999", "s", 28800),
        Err(CmdError::InvalidFormat)
    ));
    assert!(matches!(
        timestamp_to_str("5", "minutes", 28800),
        Err(CmdError::UnsupportedUnit)
    ));
}

#[test]
fn str_to_timestamp_fixed_offset() {
    let r = str_to_timestamp("2021-09-21 09:00:31", "s", 28800).unwrap();
    assert_eq!(r, vec!["timestamp (s): 1632186031".to_string()]);

    let r = str_to_timestamp("2021-09-21 09:00:31", "ms", 28800).unwrap();
    assert_eq!(r, vec!["timestamp (ms): 1632186031000".to_string()]);
}

#[test]
fn str_to_timestamp_rejects_bad_input() {
    assert!(matches!(
        str_to_timestamp("2021-09-21", "s", 28800),
        Err(CmdError::InvalidFormat)
    ));
    assert!(matches!(
        str_to_timestamp("not a date", "s", 28800),
        Err(CmdError::InvalidFormat)
    ));
    assert!(matches!(
        str_to_timestamp("2021-09-21 09:00:31", "d", 28800),
        Err(CmdError::UnsupportedUnit)
    ));
}

#[test]
fn round_trip_through_both_conversions() {
    let lines = str_to_timestamp("2021-09-21 09:00:31", "s", 28800).unwrap();
    let ts = lines[0].strip_prefix("timestamp (s): ").unwrap().to_string();
    let back = timestamp_to_str(&ts, "s", 28800).unwrap();
    assert_eq!(back, vec!["formatted time: 2021-09-21 09:00:31".to_string()]);
}

#[test]
fn current_timestamp_lines_scales_by_unit() {
    let r = current_timestamp_lines(TimeUnit::Seconds, 1_700_000_123_456_789_012);
    assert_eq!(r, vec!["current timestamp (s): 1700000123".to_string()]);
    let r = current_timestamp_lines(TimeUnit::Millis, 1_700_000_123_456_789_012);
    assert_eq!(r, vec!["current timestamp (ms): 1700000123456".to_string()]);
    let r = current_timestamp_lines(TimeUnit::Seconds, -1_500_000_000);
    assert_eq!(r, vec!["current timestamp (s): -1".to_string()]);
}

#[test]
fn print_current_timestamp_validates_unit() {
    assert!(matches!(
        print_current_timestamp(None),
        Err(CmdError::InvalidArgument)
    ));
    assert!(matches!(
        print_current_timestamp(Some("weeks")),
        Err(CmdError::UnsupportedUnit)
    ));
    let lines = print_current_timestamp(Some("s")).unwrap();
    assert_eq!(lines.len(), 1);
    assert!(lines[0].starts_with("current timestamp (s): "));
}

#[test]
fn offset_from_local_falls_back_to_utc8() {
    assert_eq!(offset_from_local(None).seconds, 28800);
    assert_eq!(offset_from_local(Some(3600)).seconds, 3600);
    assert_eq!(offset_from_local(Some(-93599)).seconds, -93599);
    assert_eq!(offset_from_local(Some(1_000_000)).seconds, 28800);
}

#[test]
fn get_utc_offset_is_representable() {
    let off = get_utc_offset();
    assert!(-93599 <= off.seconds && off.seconds <= 93599);
}

#[test]
fn time_run_selects_exactly_one_operation() {
    assert!(matches!(
        time_run(false, None, None, Some("s")),
        Err(CmdError::InvalidArgument)
    ));
    assert!(matches!(
        time_run(true, None, None, None),
        Err(CmdError::InvalidArgument)
    ));
    assert!(matches!(
        time_run(false, Some("1632186031"), None, None),
        Err(CmdError::InvalidArgument)
    ));
    assert!(matches!(
        time_run(false, Some("1632186031"), None, Some("days")),
        Err(CmdError::UnsupportedUnit)
    ));
    let lines = time_run(true, None, None, Some("ms")).unwrap();
    assert!(lines[0].starts_with("current timestamp (ms): "));
    // The now selector wins over the others, as in the handler's priority.
    let lines = time_run(true, Some("0"), Some("x"), Some("s")).unwrap();
    assert!(lines[0].starts_with("current timestamp (s): "));
}
