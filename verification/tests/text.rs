use realtime_chat::text::{
    parse_port, same_ignoring_case, trim_trailing_slashes, write_digit, write_six_digits,
};

#[test]
fn six_digits_keep_leading_zeros() {
    assert_eq!(write_six_digits(0), "000000");
    assert_eq!(write_six_digits(42), "000042");
    assert_eq!(write_six_digits(123_456), "123456");
    assert_eq!(write_six_digits(999_999), "999999");
    for value in [1, 10, 99, 5_000, 70_707, 654_321] {
        assert_eq!(write_six_digits(value), format!("{:06}", value));
        assert_eq!(write_six_digits(value).parse::<u32>().unwrap(), value);
    }
}

#[test]
fn single_digits_are_written() {
    for value in 0..10 {
        assert_eq!(write_digit(value), value.to_string());
    }
}

#[test]
fn ports_are_read_as_numbers_are() {
    let texts = [
        "25", "587", "0", "65535", "65536", "99999999999", "+25", "+", "", "-1", "-0", " 25", "25 ",
        "00465", "2 5", "4é", "٣",
    ];
    for text in texts {
        assert_eq!(parse_port(text), text.parse::<u16>().ok(), "{}", text);
    }
    assert_eq!(parse_port("587"), Some(587));
    assert_eq!(parse_port("65536"), None);
}

#[test]
fn slashes_are_dropped_from_the_end_only() {
    assert_eq!(trim_trailing_slashes("http://a/b//"), "http://a/b");
    assert_eq!(trim_trailing_slashes("http://a"), "http://a");
    assert_eq!(trim_trailing_slashes("///"), "");
    assert_eq!(trim_trailing_slashes(""), "");
    assert_eq!(trim_trailing_slashes("é/"), "é");
}

#[test]
fn letter_case_is_ignored_for_ascii_only() {
    assert!(same_ignoring_case("TrUe", "true"));
    assert!(!same_ignoring_case("true ", "true"));
    assert!(!same_ignoring_case("É", "é"));
    assert!(same_ignoring_case("[@`{1", "[@`{1"));
    assert!(!same_ignoring_case("@", "`"));
}
