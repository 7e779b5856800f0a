use geyser_redis::text::{bool_to_text, i64_to_dec, u64_to_dec};

#[test]
fn u64_decimal_forms() {
    assert_eq!(u64_to_dec(0), "0");
    assert_eq!(u64_to_dec(7), "7");
    assert_eq!(u64_to_dec(10), "10");
    assert_eq!(u64_to_dec(1500), "1500");
    assert_eq!(u64_to_dec(u64::MAX), "18446744073709551615");
}

#[test]
fn i64_decimal_forms() {
    assert_eq!(i64_to_dec(0), "0");
    assert_eq!(i64_to_dec(42), "42");
    assert_eq!(i64_to_dec(-1), "-1");
    assert_eq!(i64_to_dec(-1500), "-1500");
    assert_eq!(i64_to_dec(i64::MIN), "-9223372036854775808");
    assert_eq!(i64_to_dec(i64::MAX), "9223372036854775807");
}

#[test]
fn bool_text_forms() {
    assert_eq!(bool_to_text(true), "1");
    assert_eq!(bool_to_text(false), "0");
}
