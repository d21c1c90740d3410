use nimbus_inspect::json::{parse_u16_digits, parse_u64_digits};

#[test]
fn digit_strings_parse_to_their_value() {
    assert_eq!(parse_u64_digits("0"), Some(0));
    assert_eq!(parse_u64_digits("3"), Some(3));
    assert_eq!(parse_u64_digits("1700000000"), Some(1700000000));
    assert_eq!(parse_u64_digits("005"), Some(5));
}

#[test]
fn the_largest_value_fits_and_the_next_does_not() {
    assert_eq!(parse_u64_digits("18446744073709551615"), Some(u64::MAX));
    assert_eq!(parse_u64_digits("18446744073709551616"), None);
    assert_eq!(parse_u64_digits("99999999999999999999999"), None);
}

#[test]
fn non_digit_tokens_are_rejected() {
    assert_eq!(parse_u64_digits(""), None);
    assert_eq!(parse_u64_digits("-3"), None);
    assert_eq!(parse_u64_digits("3.0"), None);
    assert_eq!(parse_u64_digits("1e3"), None);
    assert_eq!(parse_u64_digits("12a"), None);
}

#[test]
fn version_numbers_stop_at_sixteen_bits() {
    assert_eq!(parse_u16_digits("65535"), Some(65535));
    assert_eq!(parse_u16_digits("65536"), None);
    assert_eq!(parse_u16_digits("3"), Some(3));
}
