use rubika_bot::parse_time_millis;

#[test]
fn whole_seconds_parse_to_millis() {
    assert_eq!(parse_time_millis("123"), Some(123_000));
    assert_eq!(parse_time_millis("0"), Some(0));
    assert_eq!(parse_time_millis("1700000000"), Some(1_700_000_000_000));
}

#[test]
fn fraction_digits_fill_milliseconds() {
    assert_eq!(parse_time_millis("123.456"), Some(123_456));
    assert_eq!(parse_time_millis("1.2"), Some(1_200));
    assert_eq!(parse_time_millis("1.25"), Some(1_250));
    assert_eq!(parse_time_millis("7."), Some(7_000));
}

#[test]
fn fraction_digits_beyond_the_third_are_ignored() {
    assert_eq!(parse_time_millis("123.4567"), Some(123_456));
    assert_eq!(parse_time_millis("0.99999"), Some(999));
}

#[test]
fn malformed_timestamps_parse_to_nothing() {
    assert_eq!(parse_time_millis(""), None);
    assert_eq!(parse_time_millis("."), None);
    assert_eq!(parse_time_millis(".5"), None);
    assert_eq!(parse_time_millis("12a"), None);
    assert_eq!(parse_time_millis("1.2.3"), None);
    assert_eq!(parse_time_millis("-5"), None);
    assert_eq!(parse_time_millis("1 2"), None);
}

#[test]
fn oversized_integer_parts_parse_to_nothing() {
    assert_eq!(parse_time_millis("999999999999999"), Some(999_999_999_999_999_000));
    assert_eq!(parse_time_millis("1000000000000000"), None);
}
