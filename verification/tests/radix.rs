use lazy_node::radix::{parse_decimal, parse_hex, write_decimal, write_hex, NumberError};
use std::num::IntErrorKind;

fn by_std(text: &str, radix: u32) -> Result<u64, NumberError> {
    u64::from_str_radix(text, radix).map_err(|err| match err.kind() {
        IntErrorKind::Empty => NumberError::Empty,
        IntErrorKind::InvalidDigit => NumberError::InvalidDigit,
        IntErrorKind::PosOverflow => NumberError::TooLarge,
        other => panic!("unexpected kind {:?}", other),
    })
}

fn decimal(n: u64) -> String {
    let mut out = String::new();
    write_decimal(&mut out, n);
    out
}

fn hex(n: u64) -> String {
    let mut out = String::new();
    write_hex(&mut out, n);
    out
}

#[test]
fn parse_reads_decimal_digits() {
    assert_eq!(parse_decimal("0"), Ok(0));
    assert_eq!(parse_decimal("7"), Ok(7));
    assert_eq!(parse_decimal("1234567890"), Ok(1234567890));
    assert_eq!(parse_decimal("0000012"), Ok(12));
}

#[test]
fn parse_reads_hexadecimal_digits_of_either_case() {
    assert_eq!(parse_hex("ff"), Ok(255));
    assert_eq!(parse_hex("FF"), Ok(255));
    assert_eq!(parse_hex("aBcDeF"), Ok(0xabcdef));
    assert_eq!(parse_hex("10d4f"), Ok(68943));
    assert_eq!(parse_hex("10"), Ok(16));
}

#[test]
fn a_decimal_number_may_begin_with_a_plus() {
    assert_eq!(parse_decimal("+5"), Ok(5));
    assert_eq!(parse_decimal("+0"), Ok(0));
    assert_eq!(parse_decimal("+18446744073709551615"), Ok(u64::MAX));
    assert_eq!(parse_decimal("+18446744073709551616"), Err(NumberError::TooLarge));
}

#[test]
fn a_hexadecimal_number_may_not_have_a_sign() {
    assert_eq!(parse_hex("+ff"), Err(NumberError::InvalidDigit));
    assert_eq!(parse_hex("+5"), Err(NumberError::InvalidDigit));
    assert_eq!(parse_hex("+"), Err(NumberError::InvalidDigit));
    assert_eq!(parse_hex("-5"), Err(NumberError::InvalidDigit));
    assert_eq!(parse_hex("+ffffffffffffffffffffffff"), Err(NumberError::InvalidDigit));
}

#[test]
fn parse_reaches_the_largest_number() {
    assert_eq!(parse_decimal("18446744073709551615"), Ok(u64::MAX));
    assert_eq!(parse_hex("ffffffffffffffff"), Ok(u64::MAX));
    assert_eq!(parse_hex("0000ffffffffffffffff"), Ok(u64::MAX));
}

#[test]
fn parse_refuses_what_does_not_fit() {
    assert_eq!(parse_decimal("18446744073709551616"), Err(NumberError::TooLarge));
    assert_eq!(parse_hex("10000000000000000"), Err(NumberError::TooLarge));
    assert_eq!(
        parse_decimal("99999999999999999999999999999999999999999999"),
        Err(NumberError::TooLarge)
    );
}

#[test]
fn parse_refuses_the_empty_text() {
    assert_eq!(parse_decimal(""), Err(NumberError::Empty));
    assert_eq!(parse_hex(""), Err(NumberError::Empty));
}

#[test]
fn parse_refuses_what_is_no_digit() {
    assert_eq!(parse_decimal("+"), Err(NumberError::InvalidDigit));
    assert_eq!(parse_decimal("-1"), Err(NumberError::InvalidDigit));
    assert_eq!(parse_decimal("12a"), Err(NumberError::InvalidDigit));
    assert_eq!(parse_decimal("a"), Err(NumberError::InvalidDigit));
    assert_eq!(parse_hex("g"), Err(NumberError::InvalidDigit));
    assert_eq!(parse_decimal(" 1"), Err(NumberError::InvalidDigit));
    assert_eq!(parse_decimal("1 "), Err(NumberError::InvalidDigit));
    assert_eq!(parse_decimal("1_000"), Err(NumberError::InvalidDigit));
    assert_eq!(parse_decimal("++1"), Err(NumberError::InvalidDigit));
    assert_eq!(parse_decimal("1+"), Err(NumberError::InvalidDigit));
    assert_eq!(parse_decimal("\u{663}"), Err(NumberError::InvalidDigit));
    assert_eq!(parse_hex("1\u{e9}"), Err(NumberError::InvalidDigit));
}

#[test]
fn the_first_fault_from_the_left_decides() {
    assert_eq!(parse_decimal("99999999999999999999999999999999x"), Err(NumberError::TooLarge));
    assert_eq!(parse_decimal("18446744073709551616x"), Err(NumberError::TooLarge));
    assert_eq!(parse_decimal("x99999999999999999999999999999999"), Err(NumberError::InvalidDigit));
    assert_eq!(parse_decimal("12x99999999999999999999999999999"), Err(NumberError::InvalidDigit));
    assert_eq!(parse_decimal("1844674407370955161x"), Err(NumberError::InvalidDigit));
    assert_eq!(parse_hex("fffffffffffffffffg"), Err(NumberError::TooLarge));
    assert_eq!(parse_hex("ffffffffffffffffg"), Err(NumberError::InvalidDigit));
    assert_eq!(parse_hex("gfffffffffffffffff"), Err(NumberError::InvalidDigit));
}

#[test]
fn a_character_that_is_no_digit_counts_before_the_size() {
    assert_eq!(parse_decimal("18446744073709551615x"), Err(NumberError::InvalidDigit));
    assert_eq!(parse_decimal("18446744073709551615 "), Err(NumberError::InvalidDigit));
    assert_eq!(parse_hex("ffffffffffffffffx"), Err(NumberError::InvalidDigit));
}

#[test]
fn parse_agrees_with_the_standard_library() {
    let texts = [
        "0", "1", "+1", "-1", "", "+", "007", "ff", "FF", "fg", "18446744073709551615",
        "18446744073709551616", "ffffffffffffffff", "1ffffffffffffffff", " 5", "5 ", "0x5",
        "\u{661}",
    ];
    for text in texts {
        assert_eq!(parse_decimal(text), by_std(text, 10));
        if text.starts_with('+') {
            assert_eq!(parse_hex(text), Err(NumberError::InvalidDigit));
        } else {
            assert_eq!(parse_hex(text), by_std(text, 16));
        }
    }
}

#[test]
fn parse_agrees_with_the_standard_library_on_the_kind_of_the_error() {
    let texts = [
        "",
        "+",
        "-",
        "-0",
        "a",
        "9a",
        "99999999999999999999",
        "99999999999999999999a",
        "999999999999999999999999999999999999999a",
        "a99999999999999999999",
        "18446744073709551615a",
        "18446744073709551616a",
        "1844674407370955161a",
        "+99999999999999999999a",
        "+18446744073709551615",
        "+ 1",
        "1e3",
        "0.0",
    ];
    for text in texts {
        assert_eq!(parse_decimal(text), by_std(text, 10));
    }
    let texts = [
        "",
        "-",
        "g",
        "fg",
        "ffffffffffffffff",
        "ffffffffffffffffg",
        "fffffffffffffffffg",
        "10000000000000000",
        "10000000000000000g",
        "g10000000000000000",
        "0x10",
    ];
    for text in texts {
        assert_eq!(parse_hex(text), by_std(text, 16));
    }
}

#[test]
fn write_gives_lower_case_digits_without_leading_zeros() {
    assert_eq!(decimal(0), "0");
    assert_eq!(hex(0), "0");
    assert_eq!(hex(255), "ff");
    assert_eq!(decimal(255), "255");
    assert_eq!(hex(68943), "10d4f");
    assert_eq!(hex(0xabcdef), "abcdef");
    assert_eq!(hex(u64::MAX), "ffffffffffffffff");
    assert_eq!(decimal(u64::MAX), "18446744073709551615");
}

#[test]
fn write_appends_to_what_is_there() {
    let mut out = String::from("lag=");
    write_decimal(&mut out, 42);
    assert_eq!(out, "lag=42");
    write_decimal(&mut out, 0);
    assert_eq!(out, "lag=420");
    write_hex(&mut out, 31);
    assert_eq!(out, "lag=4201f");
}

#[test]
fn write_agrees_with_the_standard_library() {
    let numbers = [0u64, 1, 9, 10, 15, 16, 17, 255, 256, 4095, 1 << 32, u64::MAX - 1, u64::MAX];
    for n in numbers {
        assert_eq!(decimal(n), format!("{}", n));
        assert_eq!(hex(n), format!("{:x}", n));
    }
}

#[test]
fn written_numbers_are_read_back() {
    let numbers = [0u64, 1, 9, 10, 15, 16, 255, 68943, 1 << 53, u64::MAX - 1, u64::MAX];
    for n in numbers {
        assert_eq!(parse_decimal(&decimal(n)), Ok(n));
        assert_eq!(parse_hex(&hex(n)), Ok(n));
    }
}

#[test]
fn number_errors_are_described() {
    assert_eq!(NumberError::Empty.describe(), "cannot parse integer from empty string");
    assert_eq!(NumberError::InvalidDigit.describe(), "invalid digit found in string");
    assert_eq!(NumberError::TooLarge.describe(), "number too large to fit in target type");
}
