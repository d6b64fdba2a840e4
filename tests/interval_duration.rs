use site_health::interval_duration::{parse_seconds, IntervalDuration};
use site_health::request::RequestError;

#[test]
fn create_interval_duration_successful() {
    for milliseconds_interval in 0..u8::MAX {
        let milliseconds_interval_str = milliseconds_interval.to_string();

        let result = IntervalDuration::try_from(milliseconds_interval_str);
        assert!(result.is_ok());
        assert_eq!(result.unwrap().to_millis(), milliseconds_interval as u64 * 1000)
    }
}

#[test]
fn create_interval_duration_error() {
    let milliseconds_interval_str = "some_string".to_string();

    let result = IntervalDuration::try_from(milliseconds_interval_str);
    assert!(result.is_err());
}

#[test]
fn interval_largest_value_accepted() {
    let result = IntervalDuration::try_from("255".to_string());
    assert_eq!(result.unwrap().to_millis(), 255_000);
}

#[test]
fn interval_zero_accepted() {
    let result = IntervalDuration::try_from("0".to_string());
    assert_eq!(result.unwrap().to_millis(), 0);
}

#[test]
fn interval_above_range_rejected() {
    for text in ["256", "1000", "99999999999999999999999"] {
        let result = IntervalDuration::try_from(text.to_string());
        assert!(matches!(result, Err(RequestError::IntervalValueError)));
    }
}

#[test]
fn interval_negative_and_malformed_rejected() {
    for text in ["-1", "-0", "", "+", " 1", "1 ", "1.5", "1a", "1+2", "++1"] {
        let result = IntervalDuration::try_from(text.to_string());
        assert!(matches!(result, Err(RequestError::IntervalValueError)), "{}", text);
    }
}

#[test]
fn interval_plus_sign_and_leading_zeros_accepted() {
    assert_eq!(IntervalDuration::try_from("+7".to_string()).unwrap().to_millis(), 7000);
    assert_eq!(IntervalDuration::try_from("007".to_string()).unwrap().to_millis(), 7000);
    assert_eq!(IntervalDuration::try_from("0255".to_string()).unwrap().to_millis(), 255_000);
}

#[test]
fn interval_parse_agrees_with_std() {
    for text in ["0", "12", "255", "256", "+3", "-3", "", "x", "0000", "+", "25a"] {
        assert_eq!(parse_seconds(text), text.parse::<u8>().ok(), "{}", text);
    }
}

#[test]
fn interval_renders_milliseconds() {
    let d = IntervalDuration::try_from("12".to_string()).unwrap();
    assert_eq!(d.to_string(), "12000".to_string());
    assert_eq!(IntervalDuration::from(0u64).to_string(), "0".to_string());
    assert_eq!(IntervalDuration::from(u64::MAX).to_string(), u64::MAX.to_string());
}

#[test]
fn interval_from_millis() {
    let d: IntervalDuration = 1234u64.into();
    assert_eq!(d.to_millis(), 1234);
}
