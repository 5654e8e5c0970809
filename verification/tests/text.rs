use unlink_probe::text::i64_to_string;

#[test]
fn renders_zero() {
    assert_eq!(i64_to_string(0), "0");
}

#[test]
fn renders_single_digit() {
    assert_eq!(i64_to_string(7), "7");
}

#[test]
fn renders_recovery_codes() {
    assert_eq!(i64_to_string(283), "283");
    assert_eq!(i64_to_string(539), "539");
}

#[test]
fn renders_negative_numbers() {
    assert_eq!(i64_to_string(-1), "-1");
    assert_eq!(i64_to_string(-283), "-283");
}

#[test]
fn renders_extreme_values() {
    assert_eq!(i64_to_string(i64::MAX), "9223372036854775807");
    assert_eq!(i64_to_string(i64::MIN), "-9223372036854775808");
}
