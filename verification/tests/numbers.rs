use eza_options::numbers::{parse_u32, ParseError};

#[test]
fn parses_plain_and_signed_numbers() {
    assert_eq!(parse_u32("0"), Ok(0));
    assert_eq!(parse_u32("1"), Ok(1));
    assert_eq!(parse_u32("12"), Ok(12));
    assert_eq!(parse_u32("+5"), Ok(5));
    assert_eq!(parse_u32("007"), Ok(7));
    assert_eq!(parse_u32("4294967295"), Ok(u32::MAX));
}

#[test]
fn rejects_the_empty_string() {
    assert_eq!(parse_u32(""), Err(ParseError::Empty));
}

#[test]
fn rejects_non_digits() {
    assert_eq!(parse_u32("+"), Err(ParseError::InvalidDigit));
    assert_eq!(parse_u32("four"), Err(ParseError::InvalidDigit));
    assert_eq!(parse_u32("-1"), Err(ParseError::InvalidDigit));
    assert_eq!(parse_u32("1 "), Err(ParseError::InvalidDigit));
    assert_eq!(parse_u32("1.5"), Err(ParseError::InvalidDigit));
}

#[test]
fn rejects_values_above_u32_max() {
    assert_eq!(parse_u32("4294967296"), Err(ParseError::TooLarge));
    assert_eq!(parse_u32("99999999999999999999"), Err(ParseError::TooLarge));
}

#[test]
fn a_late_bad_digit_outranks_an_early_overflow() {
    assert_eq!(parse_u32("99999999999x"), Err(ParseError::InvalidDigit));
}
