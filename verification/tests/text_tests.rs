use kucoin::utils::text::{decimal_string, signed_decimal_string};
use kucoin::utils::time::{get_timestamp, timestamp_of};
use std::time::{SystemTime, UNIX_EPOCH};

#[test]
fn decimal_string_of_small_numbers() {
    assert_eq!(decimal_string(0), "0");
    assert_eq!(decimal_string(7), "7");
    assert_eq!(decimal_string(9), "9");
    assert_eq!(decimal_string(10), "10");
    assert_eq!(decimal_string(11), "11");
    assert_eq!(decimal_string(99), "99");
    assert_eq!(decimal_string(100), "100");
    assert_eq!(decimal_string(1234567890), "1234567890");
}

#[test]
fn decimal_string_of_a_timestamp() {
    assert_eq!(decimal_string(1700000000000), "1700000000000");
}

#[test]
fn decimal_string_of_the_largest_number() {
    assert_eq!(
        decimal_string(u128::MAX),
        "340282366920938463463374607431768211455"
    );
}

#[test]
fn decimal_string_agrees_with_std() {
    let mut value: u128 = 1;
    while value < u128::MAX / 7 {
        assert_eq!(decimal_string(value), value.to_string());
        assert_eq!(decimal_string(value - 1), (value - 1).to_string());
        value = value * 7 + 3;
    }
}

#[test]
fn signed_decimal_string_of_both_signs() {
    assert_eq!(signed_decimal_string(0), "0");
    assert_eq!(signed_decimal_string(20), "20");
    assert_eq!(signed_decimal_string(-1), "-1");
    assert_eq!(signed_decimal_string(-42), "-42");
    assert_eq!(signed_decimal_string(i64::MAX), "9223372036854775807");
    assert_eq!(signed_decimal_string(i64::MIN), "-9223372036854775808");
}

#[test]
fn timestamp_is_a_decimal_numeral() {
    let timestamp = get_timestamp().expect("Clock may have gone backwards");
    assert!(!timestamp.is_empty());
    assert!(timestamp.chars().all(|c| c.is_ascii_digit()));
    assert!(timestamp == "0" || !timestamp.starts_with('0'));
}

#[test]
fn timestamp_is_the_current_time_in_milliseconds() {
    let before = SystemTime::now()
        .duration_since(UNIX_EPOCH)
        .unwrap()
        .as_millis();
    let timestamp = get_timestamp().unwrap();
    let after = SystemTime::now()
        .duration_since(UNIX_EPOCH)
        .unwrap()
        .as_millis();
    let read: u128 = timestamp.parse().unwrap();
    assert!(before <= read);
    assert!(read <= after);
}

#[test]
fn timestamp_of_a_reading_is_its_decimal_numeral() {
    assert_eq!(timestamp_of(Some(0)), Some("0".to_string()));
    assert_eq!(
        timestamp_of(Some(1700000000000)),
        Some("1700000000000".to_string())
    );
    assert_eq!(
        timestamp_of(Some(u128::MAX)),
        Some("340282366920938463463374607431768211455".to_string())
    );
}

#[test]
fn no_reading_gives_no_timestamp() {
    assert_eq!(timestamp_of(None), None);
}
