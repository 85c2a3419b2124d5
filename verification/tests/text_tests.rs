use pager::text::decimal_string;

#[test]
fn decimal_of_zero_is_a_single_digit() {
    assert_eq!(decimal_string(0), "0");
}

#[test]
fn decimal_of_single_digits() {
    assert_eq!(decimal_string(7), "7");
    assert_eq!(decimal_string(9), "9");
}

#[test]
fn decimal_of_round_numbers_keeps_inner_zeros() {
    assert_eq!(decimal_string(10), "10");
    assert_eq!(decimal_string(100), "100");
    assert_eq!(decimal_string(1050), "1050");
}

#[test]
fn decimal_of_a_larger_number() {
    assert_eq!(decimal_string(12345), "12345");
}

#[test]
fn decimal_of_the_largest_usize() {
    assert_eq!(decimal_string(usize::MAX), format!("{}", usize::MAX));
}
