use national_code::checksum::{check_digit, expected_check_digit, weighted_sum};
use national_code::standard::StandardCode;

fn code(digits: &str) -> StandardCode {
    StandardCode::from_digits(digits).unwrap()
}

#[test]
fn weighted_sum_of_one_to_nine() {
    // 1*10 + 2*9 + 3*8 + 4*7 + 5*6 + 6*5 + 7*4 + 8*3 + 9*2
    assert_eq!(weighted_sum(&code("1234567890")), 210);
}

#[test]
fn weighted_sum_of_the_reference_example() {
    // 60 + 45 + 64 + 49 + 24 + 25 + 8 + 3 + 10
    assert_eq!(weighted_sum(&code("6587452158")), 288);
}

#[test]
fn weighted_sum_of_a_padded_code() {
    assert_eq!(weighted_sum(&code("123456789")), 156);
    assert_eq!(weighted_sum(&code("0123456789")), 156);
}

#[test]
fn weighted_sum_leaves_the_tenth_digit_out() {
    for last in ["0", "1", "5", "9"] {
        assert_eq!(weighted_sum(&code(&format!("123456789{}", last))), 210);
    }
}

#[test]
fn weighted_sum_weighs_each_place() {
    assert_eq!(weighted_sum(&code("1000000000")), 10);
    assert_eq!(weighted_sum(&code("0100000000")), 9);
    assert_eq!(weighted_sum(&code("0010000000")), 8);
    assert_eq!(weighted_sum(&code("0001000000")), 7);
    assert_eq!(weighted_sum(&code("0000100000")), 6);
    assert_eq!(weighted_sum(&code("0000010000")), 5);
    assert_eq!(weighted_sum(&code("0000001000")), 4);
    assert_eq!(weighted_sum(&code("0000000100")), 3);
    assert_eq!(weighted_sum(&code("0000000010")), 2);
    assert_eq!(weighted_sum(&code("0000000001")), 0);
}

#[test]
fn weighted_sum_is_smallest_and_largest() {
    assert_eq!(weighted_sum(&code("0000000000")), 0);
    assert_eq!(weighted_sum(&code("9999999999")), 486);
    assert_eq!(weighted_sum(&code("9999999990")), 486);
}

#[test]
fn check_digit_is_the_tenth_digit() {
    assert_eq!(check_digit(&code("6587452158")), 8);
    assert_eq!(check_digit(&code("1234567890")), 0);
    assert_eq!(check_digit(&code("123456789")), 9);
    assert_eq!(check_digit(&code("12345671")), 1);
}

#[test]
fn expected_check_digit_of_small_remainders() {
    assert_eq!(expected_check_digit(0), 0);
    assert_eq!(expected_check_digit(1), 1);
    assert_eq!(expected_check_digit(11), 0);
    assert_eq!(expected_check_digit(12), 1);
    assert_eq!(expected_check_digit(210), 1);
    assert_eq!(expected_check_digit(220), 0);
}

#[test]
fn expected_check_digit_of_larger_remainders() {
    assert_eq!(expected_check_digit(2), 9);
    assert_eq!(expected_check_digit(3), 8);
    assert_eq!(expected_check_digit(4), 7);
    assert_eq!(expected_check_digit(5), 6);
    assert_eq!(expected_check_digit(6), 5);
    assert_eq!(expected_check_digit(7), 4);
    assert_eq!(expected_check_digit(8), 3);
    assert_eq!(expected_check_digit(9), 2);
    assert_eq!(expected_check_digit(10), 1);
    assert_eq!(expected_check_digit(156), 9);
    assert_eq!(expected_check_digit(288), 9);
    assert_eq!(expected_check_digit(486), 9);
}

#[test]
fn expected_check_digit_is_a_digit_for_every_sum() {
    for sum in 0..=486 {
        assert!(expected_check_digit(sum) <= 9, "{}", sum);
    }
    assert!(expected_check_digit(u32::MAX) <= 9);
}

#[test]
fn the_checksum_alone_accepts_uniform_codes() {
    for d in 0..10u32 {
        let text = d.to_string().repeat(10);
        let uniform = code(&text);
        assert_eq!(weighted_sum(&uniform), 54 * d);
        assert_eq!(expected_check_digit(weighted_sum(&uniform)), check_digit(&uniform));
    }
}
