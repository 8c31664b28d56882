use chrono::NaiveDate;
use tempus::{to_date_string, to_iso8601, to_long_date, to_rfc2822, Instant};

#[test]
fn test_to_date_string() {
    let date = NaiveDate::from_ymd_opt(2026, 2, 22).unwrap();
    assert_eq!(to_date_string(date), "2026-02-22");
}

#[test]
fn test_to_long_date() {
    let date = NaiveDate::from_ymd_opt(2026, 2, 22).unwrap();
    assert_eq!(to_long_date(date), "February 22, 2026");
}

#[test]
fn test_to_long_date_with_single_digit_day() {
    let date = NaiveDate::from_ymd_opt(2026, 2, 5).unwrap();
    assert_eq!(to_long_date(date), "February  5, 2026");
}

#[test]
fn test_to_long_date_with_leading_zero_day() {
    let date = NaiveDate::from_ymd_opt(2026, 2, 5).unwrap();
    assert_eq!(to_long_date(date), "February  5, 2026");
}

#[test]
fn test_to_long_date_with_leading_zero_month() {
    let date = NaiveDate::from_ymd_opt(2026, 2, 22).unwrap();
    assert_eq!(to_long_date(date), "February 22, 2026");
}

#[test]
fn test_to_long_date_with_leading_zero_month_and_day() {
    let date = NaiveDate::from_ymd_opt(2026, 2, 5).unwrap();
    assert_eq!(to_long_date(date), "February  5, 2026");
}

#[test]
fn test_to_long_date_with_leading_zero_month_and_day_and_year() {
    let date = NaiveDate::from_ymd_opt(2026, 2, 5).unwrap();
    assert_eq!(to_long_date(date), "February  5, 2026");
}

#[test]
fn test_to_long_date_with_leading_zero_month_and_day_and_year_and_time() {
    let datetime = Instant::from_ymd_hms(2026, 2, 5, 14, 30, 0).unwrap();
    let date = datetime.date().unwrap();
    assert_eq!(to_long_date(date), "February  5, 2026");
}

#[test]
fn test_to_long_date_with_leading_zero_month_and_day_and_year_and_time_and_timezone() {
    let datetime = Instant::from_ymd_hms(2026, 2, 5, 14, 30, 0).unwrap();
    let date = datetime.date().unwrap();
    assert_eq!(to_long_date(date), "February  5, 2026");
}

#[test]
fn test_to_iso8601() {
    let datetime = Instant::from_ymd_hms(2026, 2, 22, 14, 30, 0).unwrap();
    let result = to_iso8601(datetime);
    assert!(result.starts_with("2026-02-22T14:30:00"));
    assert!(result.contains('+') || result.contains('-'));
}

#[test]
fn test_to_rfc2822() {
    let datetime = Instant::from_ymd_hms(2026, 2, 22, 14, 30, 0).unwrap();
    let result = to_rfc2822(datetime).unwrap();
    assert!(result.starts_with("Sun, 22 Feb 2026 14:30:00"));
}

#[test]
fn test_to_rfc2822_out_of_range_year_is_none() {
    let datetime = Instant::from_ymd_hms(10_000, 1, 1, 0, 0, 0).unwrap();
    assert!(to_rfc2822(datetime).is_none());
}

#[test]
fn test_shift_out_of_range_is_none() {
    let now = Instant::now();
    assert!(now.minus_seconds(i64::MAX).is_none());
    assert!(now.plus_seconds(i64::MAX).is_none());
    assert!(now.minus_seconds(i64::MIN).is_none());
}
