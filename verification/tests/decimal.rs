use miner::decimal::signed_text;
use miner::decimal::unsigned_text;

#[test]
fn unsigned_text_of_single_digits() {
    assert_eq!(unsigned_text(0), "0");
    assert_eq!(unsigned_text(7), "7");
    assert_eq!(unsigned_text(9), "9");
}

#[test]
fn unsigned_text_has_no_leading_zeros() {
    assert_eq!(unsigned_text(10), "10");
    assert_eq!(unsigned_text(100), "100");
    assert_eq!(unsigned_text(1234567890), "1234567890");
}

#[test]
fn unsigned_text_of_the_largest_value() {
    assert_eq!(unsigned_text(u64::MAX), "18446744073709551615");
}

#[test]
fn signed_text_of_negative_values() {
    assert_eq!(signed_text(-1), "-1");
    assert_eq!(signed_text(-42), "-42");
    assert_eq!(signed_text(i64::MIN), "-9223372036854775808");
}

#[test]
fn signed_text_of_values_from_zero_up() {
    assert_eq!(signed_text(0), "0");
    assert_eq!(signed_text(7), "7");
    assert_eq!(signed_text(i64::MAX), "9223372036854775807");
}

#[test]
fn decimal_text_agrees_with_the_json_reader() {
    for n in [0u64, 1, 9, 10, 99, 100, 65535, 4294967296, u64::MAX] {
        assert_eq!(unsigned_text(n), serde_json::Number::from(n).to_string());
    }
    for n in [i64::MIN, -4294967296, -100, -10, -1, 0, 1, i64::MAX] {
        assert_eq!(signed_text(n), serde_json::Number::from(n).to_string());
    }
}
