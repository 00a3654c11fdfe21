use timedumper::decimal::parse_decimal;

#[test]
fn plain_digits_are_read() {
    assert_eq!(parse_decimal("8883", 65535), Some(8883));
    assert_eq!(parse_decimal("0", 65535), Some(0));
    assert_eq!(parse_decimal("5", u64::MAX), Some(5));
}

#[test]
fn one_leading_plus_is_taken() {
    assert_eq!(parse_decimal("+5", 65535), Some(5));
    assert_eq!(parse_decimal("++5", 65535), None);
    assert_eq!(parse_decimal("+", 65535), None);
}

#[test]
fn leading_zeros_do_not_matter() {
    assert_eq!(parse_decimal("0001883", 65535), Some(1883));
    assert_eq!(parse_decimal("00000000000000000000000000000065535", 65535), Some(65535));
}

#[test]
fn what_is_no_number_is_refused() {
    assert_eq!(parse_decimal("abc", 65535), None);
    assert_eq!(parse_decimal("", 65535), None);
    assert_eq!(parse_decimal("-5", 65535), None);
    assert_eq!(parse_decimal("-", 65535), None);
    assert_eq!(parse_decimal(" 80", 65535), None);
    assert_eq!(parse_decimal("80 ", 65535), None);
    assert_eq!(parse_decimal("8o", 65535), None);
    assert_eq!(parse_decimal("1.5", 65535), None);
    assert_eq!(parse_decimal("\u{ff18}", 65535), None);
    assert_eq!(parse_decimal("1\u{e9}", 65535), None);
}

#[test]
fn the_limit_is_the_last_number_taken() {
    assert_eq!(parse_decimal("65535", 65535), Some(65535));
    assert_eq!(parse_decimal("65536", 65535), None);
    assert_eq!(parse_decimal("255", 255), Some(255));
    assert_eq!(parse_decimal("256", 255), None);
    assert_eq!(parse_decimal("18446744073709551615", u64::MAX), Some(u64::MAX));
    assert_eq!(parse_decimal("18446744073709551616", u64::MAX), None);
    assert_eq!(parse_decimal("99999999999999999999999999999999999999999", u64::MAX), None);
    assert_eq!(parse_decimal("1", 0), None);
    assert_eq!(parse_decimal("0", 0), Some(0));
}

#[test]
fn a_digit_after_too_large_a_number_changes_nothing() {
    assert_eq!(parse_decimal("655360", 65535), None);
    assert_eq!(parse_decimal("65536x", 65535), None);
}

#[test]
fn agrees_with_the_standard_parser() {
    let texts = [
        "", "+", "-", "0", "+0", "-0", "1", "01", "+01", "1883", "8883", "65535", "65536",
        "70000", "abc", "12a", "a12", "1 2", " 12", "12 ", "+-1", "1+", "0x10", "1e3", "१२",
        "4294967295", "4294967296", "18446744073709551615", "18446744073709551616",
    ];
    for text in texts {
        assert_eq!(
            parse_decimal(text, u16::MAX as u64),
            text.parse::<u16>().ok().map(u64::from),
            "as a u16: {:?}",
            text
        );
        assert_eq!(
            parse_decimal(text, u64::MAX),
            text.parse::<u64>().ok(),
            "as a u64: {:?}",
            text
        );
    }
}
