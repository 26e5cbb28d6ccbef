use chrono::Utc;
use kelidban::encryption::time::{convert_to_jalali, distance_calculator, time_ago};
use kelidban::storage::time as persian;

#[test]
fn test_convert_to_jalali_epoch() {
    // Unix epoch (1970-01-01) → expected Jalali date: 1348/10/11
    assert_eq!(convert_to_jalali(0), "1348/10/11");
}

#[test]
fn test_convert_to_jalali_known_date() {
    // 2020-01-01 00:00:00 UTC → 1398/10/11
    assert_eq!(convert_to_jalali(1577836800), "1398/10/11");
}

#[test]
fn test_convert_to_jalali_format() {
    let result = convert_to_jalali(1_000_000_000); // 2001-09-09
    assert_eq!(result.len(), 10);
    assert_eq!(&result[4..5], "/");
    assert_eq!(&result[7..8], "/");
    assert!(result.chars().all(|c| c.is_ascii_digit() || c == '/'));
}

#[test]
fn test_time_ago_seconds() {
    assert_eq!(time_ago(0), "0 seconds ago");
    assert_eq!(time_ago(30), "30 seconds ago");
    assert_eq!(time_ago(59), "59 seconds ago");
}

#[test]
fn test_time_ago_minutes() {
    assert_eq!(time_ago(60), "1 minutes ago");
    assert_eq!(time_ago(120), "2 minutes ago");
    assert_eq!(time_ago(3599), "59 minutes ago");
}

#[test]
fn test_time_ago_hours() {
    assert_eq!(time_ago(3600), "1 hours ago");
    assert_eq!(time_ago(7200), "2 hours ago");
    assert_eq!(time_ago(86399), "23 hours ago");
}

#[test]
fn test_time_ago_days() {
    assert_eq!(time_ago(86400), "1 days ago");
    assert_eq!(time_ago(172800), "2 days ago");
    assert_eq!(time_ago(2_591_999), "29 days ago"); // just below 30 days
}

#[test]
fn test_time_ago_months() {
    // 30-day month assumption
    assert_eq!(time_ago(2_592_000), "1 months ago");
    assert_eq!(time_ago(2_592_000 * 2), "2 months ago");
    assert_eq!(time_ago(31_535_999), "12 months ago"); // 12 * 30 days
}

#[test]
fn test_time_ago_years() {
    assert_eq!(time_ago(31_536_000), "1 years ago");
    assert_eq!(time_ago(63_072_000), "2 years ago");
    assert_eq!(time_ago(100_000_000), "3 years ago"); // ~3.17 years → 3
}

#[test]
fn test_distance_calculator_recent_past() {
    let now = Utc::now().timestamp();
    let five_sec_ago = now - 5;
    let result = distance_calculator(five_sec_ago).unwrap();
    assert!(result.ends_with(" seconds ago"));
    let parts: Vec<&str> = result.split(' ').collect();
    assert_eq!(parts.len(), 3); // ["5", "seconds", "ago"]
    let num = parts[0].parse::<i64>().unwrap();
    assert!((4..=6).contains(&num));
}

#[test]
fn test_distance_calculator_recent_future() {
    let now = Utc::now().timestamp();
    let five_sec_ahead = now + 5;
    let result = distance_calculator(five_sec_ahead).unwrap();
    assert!(result.ends_with(" seconds ago"));
    let parts: Vec<&str> = result.split(' ').collect();
    assert_eq!(parts.len(), 3);
    let num = parts[0].parse::<i64>().unwrap();
    assert!((-6..=-4).contains(&num));
}

#[test]
fn test_distance_calculator_far_past() {
    let result = distance_calculator(0).unwrap();
    assert!(result.ends_with(" years ago"));
    let parts: Vec<&str> = result.split(' ').collect();
    assert_eq!(parts.len(), 3);
    let years = parts[0].parse::<i64>().unwrap();
    assert!(years > 50);
}

#[test]
fn test_distance_calculator_exact_minute() {
    let now = Utc::now().timestamp();
    let minute_ago = now - 60;
    let result = distance_calculator(minute_ago).unwrap();
    assert!(result.ends_with(" minutes ago"));
    let parts: Vec<&str> = result.split(' ').collect();
    let num = parts[0].parse::<i64>().unwrap();
    assert!((0..=2).contains(&num));
}

#[test]
fn time_ago_extremes() {
    assert_eq!(time_ago(-61), "-61 seconds ago");
    assert_eq!(time_ago(i64::MIN), "-9223372036854775808 seconds ago");
    assert_eq!(time_ago(i64::MAX), "292471208677 years ago");
}

#[test]
fn persian_time_ago() {
    assert_eq!(persian::time_ago(5), "5 قبل");
    assert_eq!(persian::time_ago(-5), "-5 قبل");
    assert_eq!(persian::time_ago(7200), "2 قبل");
    assert_eq!(persian::time_ago(63_072_000), "2 قبل");
    assert_eq!(persian::convert_to_jalali(0), "1348/10/11");
    assert!(persian::distance_calculator(0).unwrap().ends_with(" قبل"));
}

#[test]
fn jalali_range_edges() {
    assert_eq!(convert_to_jalali(-62135596800), "-621/10/11");
    let earliest = convert_to_jalali(-92896934400);
    assert!(earliest.starts_with('-'));
    let latest = convert_to_jalali(185445911635199);
    assert!(latest.chars().all(|c| c.is_ascii_digit() || c == '/'));
}
