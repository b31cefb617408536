use codeexpr::decimal::{append_decimal, decimal_string};

#[test]
fn zero_is_a_single_digit() {
    assert_eq!(decimal_string(0), "0");
}

#[test]
fn small_numbers() {
    assert_eq!(decimal_string(7), "7");
    assert_eq!(decimal_string(9), "9");
    assert_eq!(decimal_string(10), "10");
    assert_eq!(decimal_string(42), "42");
    assert_eq!(decimal_string(100), "100");
    assert_eq!(decimal_string(1234567890), "1234567890");
}

#[test]
fn negative_numbers_lead_with_a_minus() {
    assert_eq!(decimal_string(-1), "-1");
    assert_eq!(decimal_string(-9), "-9");
    assert_eq!(decimal_string(-10), "-10");
    assert_eq!(decimal_string(-305), "-305");
}

#[test]
fn the_limits_of_the_range() {
    assert_eq!(decimal_string(i64::MAX), "9223372036854775807");
    assert_eq!(decimal_string(i64::MIN), "-9223372036854775808");
    assert_eq!(decimal_string(i64::MIN + 1), "-9223372036854775807");
}

#[test]
fn agrees_with_the_standard_formatting() {
    let mut value: i64 = -5000;
    while value <= 5000 {
        assert_eq!(decimal_string(value), value.to_string());
        value += 1;
    }
    let mut power: i64 = 1;
    for _ in 0..18 {
        power *= 10;
        for delta in [-1i64, 0, 1] {
            assert_eq!(decimal_string(power + delta), (power + delta).to_string());
            assert_eq!(decimal_string(-(power + delta)), (-(power + delta)).to_string());
        }
    }
}

#[test]
fn append_keeps_what_is_there() {
    let mut text = String::from("x=");
    append_decimal(&mut text, -12);
    assert_eq!(text, "x=-12");
    append_decimal(&mut text, 0);
    assert_eq!(text, "x=-120");
}
