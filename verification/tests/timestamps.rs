use signing_broker::timestamp::{days_from_epoch, days_in_month, is_leap, parse_timestamp, Instant};

fn nanos(text: &str) -> Option<i128> {
    parse_timestamp(text.as_bytes()).map(|instant| instant.unix_nanos())
}

#[test]
fn the_epoch_is_zero() {
    assert_eq!(nanos("1970-01-01T00:00:00Z"), Some(0));
    assert_eq!(nanos("1970-01-01T00:00:01Z"), Some(1_000_000_000));
}

#[test]
fn an_offset_is_taken_off() {
    assert_eq!(nanos("2024-05-17T09:30:00.250+02:00"), Some(1_715_931_000_250_000_000));
    assert_eq!(nanos("2024-05-17T07:30:00.250Z"), Some(1_715_931_000_250_000_000));
    assert_eq!(nanos("2024-05-17T02:00:00.25-05:30"), Some(1_715_931_000_250_000_000));
}

#[test]
fn instants_before_1970_are_negative() {
    assert_eq!(nanos("1969-12-31T23:59:59Z"), Some(-1_000_000_000));
    assert_eq!(nanos("1969-12-31T23:59:59.5Z"), Some(-500_000_000));
    assert_eq!(nanos("0000-01-01T00:00:00Z"), Some(-62_167_219_200_000_000_000));
}

#[test]
fn the_last_second_of_the_last_year() {
    assert_eq!(nanos("9999-12-31T23:59:59Z"), Some(253_402_300_799_000_000_000));
}

#[test]
fn separators_of_either_case_and_a_space() {
    assert_eq!(nanos("1970-01-02t00:00:00z"), Some(86_400_000_000_000));
    assert_eq!(nanos("1970-01-02 00:00:00Z"), Some(86_400_000_000_000));
}

#[test]
fn of_a_fraction_nine_digits_count() {
    assert_eq!(nanos("1970-01-01T00:00:00.000000001Z"), Some(1));
    assert_eq!(nanos("1970-01-01T00:00:00.1Z"), Some(100_000_000));
    assert_eq!(nanos("1970-01-01T00:00:00.1234567899Z"), Some(123_456_789));
    assert_eq!(nanos("1970-01-01T00:00:00.000Z"), Some(0));
}

#[test]
fn a_point_needs_a_digit() {
    assert_eq!(nanos("1970-01-01T00:00:00.Z"), None);
    assert_eq!(nanos("1970-01-01T00:00:00."), None);
}

#[test]
fn the_29th_of_february() {
    assert!(nanos("2024-02-29T00:00:00Z").is_some());
    assert_eq!(nanos("2023-02-29T00:00:00Z"), None);
    assert_eq!(nanos("1900-02-29T00:00:00Z"), None);
    assert!(nanos("2000-02-29T00:00:00Z").is_some());
}

#[test]
fn numbers_out_of_range_are_refused() {
    assert_eq!(nanos("2024-13-01T00:00:00Z"), None);
    assert_eq!(nanos("2024-00-10T00:00:00Z"), None);
    assert_eq!(nanos("2024-04-31T00:00:00Z"), None);
    assert_eq!(nanos("2024-04-00T00:00:00Z"), None);
    assert_eq!(nanos("2024-04-10T24:00:00Z"), None);
    assert_eq!(nanos("2024-04-10T23:60:00Z"), None);
    assert_eq!(nanos("2024-04-10T23:59:60Z"), None);
    assert_eq!(nanos("2024-04-10T23:59:59+24:00"), None);
    assert_eq!(nanos("2024-04-10T23:59:59+00:60"), None);
}

#[test]
fn the_form_is_strict() {
    assert_eq!(nanos(""), None);
    assert_eq!(nanos("2024-04-10"), None);
    assert_eq!(nanos("2024-04-10T23:59:59"), None);
    assert_eq!(nanos("2024-04-10T23:59:59Zx"), None);
    assert_eq!(nanos(" 2024-04-10T23:59:59Z"), None);
    assert_eq!(nanos("2024/04/10T23:59:59Z"), None);
    assert_eq!(nanos("2024-04-10X23:59:59Z"), None);
    assert_eq!(nanos("2024-04-10T23.59.59Z"), None);
    assert_eq!(nanos("2024-04-10T23:59:59+0200"), None);
    assert_eq!(nanos("2024-04-10T23:59:59+02:0"), None);
    assert_eq!(nanos("20a4-04-10T23:59:59Z"), None);
    assert_eq!(nanos("1712793599"), None);
    assert_eq!(nanos("not a timestamp at all"), None);
}

#[test]
fn days_count_from_1970() {
    assert_eq!(days_from_epoch(1970, 1, 1), 0);
    assert_eq!(days_from_epoch(1970, 12, 31), 364);
    assert_eq!(days_from_epoch(1972, 3, 1), 790);
    assert_eq!(days_from_epoch(2000, 3, 1), 11_017);
    assert_eq!(days_from_epoch(2024, 5, 17), 19_860);
    assert_eq!(days_from_epoch(1969, 12, 31), -1);
    assert_eq!(days_from_epoch(0, 1, 1), -719_528);
    assert_eq!(days_from_epoch(9999, 12, 31), 2_932_896);
}

#[test]
fn leap_years_and_month_lengths() {
    assert!(is_leap(2024));
    assert!(is_leap(2000));
    assert!(!is_leap(1900));
    assert!(!is_leap(2023));
    assert!(is_leap(0));
    assert_eq!(days_in_month(2024, 2), 29);
    assert_eq!(days_in_month(2023, 2), 28);
    assert_eq!(days_in_month(2023, 4), 30);
    assert_eq!(days_in_month(2023, 12), 31);
}

#[test]
fn instants_from_seconds_and_nanoseconds_agree() {
    assert_eq!(Instant::from_unix_seconds(12).unix_nanos(), 12_000_000_000);
    assert_eq!(Instant::from_unix_seconds(-3), Instant::from_unix_nanos(-3_000_000_000));
    assert_eq!(Instant::from_unix_seconds(i64::MAX).unix_nanos(), (i64::MAX as i128) * 1_000_000_000);
}
