use cdn77_client::datetime::parse_date_time_or_exit;
use cdn77_client::outcome::Stream;

#[test]
fn date_time_parses_to_the_same_minute() {
    let d = parse_date_time_or_exit("2023-11-14 22:13", "bad").unwrap();
    assert_eq!((d.year, d.month, d.day, d.hour, d.minute), (2023, 11, 14, 22, 13));
    assert_eq!(d.timestamp, 1_699_999_980);
}

#[test]
fn date_time_epoch_start_is_zero() {
    assert_eq!(parse_date_time_or_exit("1970-01-01 00:00", "bad").unwrap().timestamp, 0);
}

#[test]
fn date_time_before_epoch_is_negative() {
    assert_eq!(parse_date_time_or_exit("1969-12-31 23:59", "bad").unwrap().timestamp, -60);
}

#[test]
fn date_time_leap_day_exists_in_leap_year() {
    let d = parse_date_time_or_exit("2024-02-29 12:00", "bad").unwrap();
    assert_eq!(d.timestamp, 1_709_208_000);
}

#[test]
fn date_time_leap_day_missing_in_common_year() {
    assert!(parse_date_time_or_exit("2023-02-29 12:00", "bad").is_err());
}

#[test]
fn date_time_wrong_separator_is_rejected() {
    let e = parse_date_time_or_exit("2023/11/14 22:13", "Start date/time is not in a correct format").unwrap_err();
    assert_eq!(e.exit_code, 2);
    assert_eq!(e.stream, Stream::Stdout);
    assert_eq!(e.message, "Start date/time is not in a correct format");
}

#[test]
fn date_time_out_of_range_month_is_rejected() {
    assert!(parse_date_time_or_exit("2023-13-01 00:00", "bad").is_err());
}

#[test]
fn date_time_out_of_range_day_is_rejected() {
    assert!(parse_date_time_or_exit("2023-04-31 00:00", "bad").is_err());
}

#[test]
fn date_time_out_of_range_hour_is_rejected() {
    assert!(parse_date_time_or_exit("2023-04-30 24:00", "bad").is_err());
}

#[test]
fn date_time_short_fields_are_rejected() {
    assert!(parse_date_time_or_exit("2023-4-30 10:00", "bad").is_err());
    assert!(parse_date_time_or_exit("2023-04-30 10:00:00", "bad").is_err());
    assert!(parse_date_time_or_exit("", "bad").is_err());
}
