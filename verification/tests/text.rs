use times_hub_api::text::decimal_string;

#[test]
fn decimal_of_zero_and_single_digits() {
    assert_eq!(decimal_string(0), "0");
    assert_eq!(decimal_string(7), "7");
    assert_eq!(decimal_string(9), "9");
}

#[test]
fn decimal_of_longer_numbers() {
    assert_eq!(decimal_string(10), "10");
    assert_eq!(decimal_string(404), "404");
    assert_eq!(decimal_string(1234567890), "1234567890");
    assert_eq!(decimal_string(2147483647), "2147483647");
}

#[test]
fn decimal_of_negative_numbers() {
    assert_eq!(decimal_string(-1), "-1");
    assert_eq!(decimal_string(-2147483648), "-2147483648");
    assert_eq!(decimal_string(i64::MIN), "-9223372036854775808");
    assert_eq!(decimal_string(i64::MAX), "9223372036854775807");
}

#[test]
fn decimal_agrees_with_the_standard_formatting() {
    for i in [-100045i64, -10, -9, 1, 99, 100, 101, 65535, 70000] {
        assert_eq!(decimal_string(i), format!("{}", i));
    }
}
