use resources::text::{i64_dec_string, parse_i64, str_eq_bytes, u64_dec_string};

#[test]
fn decimal_rendering_of_plain_values() {
    assert_eq!(u64_dec_string(0), "0");
    assert_eq!(u64_dec_string(7), "7");
    assert_eq!(u64_dec_string(1000), "1000");
    assert_eq!(u64_dec_string(u64::MAX), "18446744073709551615");
}

#[test]
fn decimal_rendering_of_signed_values() {
    assert_eq!(i64_dec_string(0), "0");
    assert_eq!(i64_dec_string(-1), "-1");
    assert_eq!(i64_dec_string(i64::MIN), "-9223372036854775808");
    assert_eq!(i64_dec_string(i64::MAX), "9223372036854775807");
}

#[test]
fn parse_accepts_trimmed_signed_fields() {
    assert_eq!(parse_i64("42"), Some(42));
    assert_eq!(parse_i64("42\n"), Some(42));
    assert_eq!(parse_i64("  -42 \r\n"), Some(-42));
    assert_eq!(parse_i64("0"), Some(0));
    assert_eq!(parse_i64("999999999999999999"), Some(999_999_999_999_999_999));
    assert_eq!(parse_i64("-999999999999999999"), Some(-999_999_999_999_999_999));
}

#[test]
fn parse_rejects_malformed_fields() {
    assert_eq!(parse_i64(""), None);
    assert_eq!(parse_i64("   \n"), None);
    assert_eq!(parse_i64("-"), None);
    assert_eq!(parse_i64("+5"), None);
    assert_eq!(parse_i64("4 2"), None);
    assert_eq!(parse_i64("0x1f"), None);
    assert_eq!(parse_i64("12.5"), None);
    assert_eq!(parse_i64("--4"), None);
    // a field past eighteen digits is treated as unparsable
    assert_eq!(parse_i64("1234567890123456789"), None);
}

#[test]
fn byte_equality_of_strings() {
    assert!(str_eq_bytes("Decimal", "Decimal"));
    assert!(!str_eq_bytes("Decimal", "decimal"));
    assert!(!str_eq_bytes("Decimal", "Decimal "));
    assert!(str_eq_bytes("", ""));
}
