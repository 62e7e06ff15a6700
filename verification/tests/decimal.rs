use ownership_demo::decimal::decimal_string;

#[test]
fn decimal_zero() {
    assert_eq!(decimal_string(0), "0");
}

#[test]
fn decimal_single_digits() {
    assert_eq!(decimal_string(1), "1");
    assert_eq!(decimal_string(3), "3");
    assert_eq!(decimal_string(9), "9");
}

#[test]
fn decimal_two_digits() {
    assert_eq!(decimal_string(10), "10");
    assert_eq!(decimal_string(42), "42");
    assert_eq!(decimal_string(99), "99");
}

#[test]
fn decimal_round_numbers() {
    assert_eq!(decimal_string(100), "100");
    assert_eq!(decimal_string(1000), "1000");
}

#[test]
fn decimal_large_values() {
    assert_eq!(decimal_string(12345), "12345");
    assert_eq!(decimal_string(4294967295), "4294967295");
}
