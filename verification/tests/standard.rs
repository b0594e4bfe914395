use national_code::standard::StandardCode;

#[test]
fn ten_digits_pass_through() {
    let code = StandardCode::from_digits("6587452158").unwrap();
    assert_eq!(code.as_str(), "6587452158");
}

#[test]
fn nine_digits_gain_one_zero() {
    let code = StandardCode::from_digits("123456789").unwrap();
    assert_eq!(code.as_str(), "0123456789");
}

#[test]
fn eight_digits_gain_two_zeros() {
    let code = StandardCode::from_digits("12345679").unwrap();
    assert_eq!(code.as_str(), "0012345679");
}

#[test]
fn seven_digits_are_too_few() {
    assert!(StandardCode::from_digits("1234567").is_none());
    assert!(StandardCode::from_digits("").is_none());
    assert!(StandardCode::from_digits("1").is_none());
}

#[test]
fn eleven_digits_are_too_many() {
    assert!(StandardCode::from_digits("12345678901").is_none());
    assert!(StandardCode::from_digits("000000000000000").is_none());
}

#[test]
fn a_character_that_is_no_digit_is_refused() {
    assert!(StandardCode::from_digits("12345678a").is_none());
    assert!(StandardCode::from_digits("a123456789").is_none());
    assert!(StandardCode::from_digits("1234-56789").is_none());
    assert!(StandardCode::from_digits("12345678 ").is_none());
    assert!(StandardCode::from_digits("/123456789").is_none());
    assert!(StandardCode::from_digits(":123456789").is_none());
    assert!(StandardCode::from_digits("abcdefghij").is_none());
}

#[test]
fn digits_of_other_scripts_are_refused() {
    assert!(StandardCode::from_digits("۰۴۹۹۳۷۰۸۹۹").is_none());
    assert!(StandardCode::from_digits("049937089۹").is_none());
    assert!(StandardCode::from_digits("١٢٣٤٥٦٧٨").is_none());
    // Four characters of two bytes each make eight bytes, yet no digit.
    assert!(StandardCode::from_digits("éééé").is_none());
}

#[test]
fn digit_reads_each_place() {
    let code = StandardCode::from_digits("123456789").unwrap();
    let digits: Vec<u8> = (0..10).map(|i| code.digit(i)).collect();
    assert_eq!(digits, vec![0, 1, 2, 3, 4, 5, 6, 7, 8, 9]);
}

#[test]
fn uniform_codes_are_told_apart() {
    for d in ["0", "1", "2", "3", "4", "5", "6", "7", "8", "9"] {
        let code = StandardCode::from_digits(&d.repeat(10)).unwrap();
        assert!(code.is_uniform(), "{}", d);
    }
    assert!(StandardCode::from_digits("00000000").unwrap().is_uniform());
    assert!(StandardCode::from_digits("000000000").unwrap().is_uniform());
}

#[test]
fn one_differing_digit_is_not_uniform() {
    assert!(!StandardCode::from_digits("1111111112").unwrap().is_uniform());
    assert!(!StandardCode::from_digits("2111111111").unwrap().is_uniform());
    assert!(!StandardCode::from_digits("1111211111").unwrap().is_uniform());
    assert!(!StandardCode::from_digits("11111111").unwrap().is_uniform());
    assert!(!StandardCode::from_digits("0000000001").unwrap().is_uniform());
    assert!(!StandardCode::from_digits("6587452158").unwrap().is_uniform());
}

#[test]
fn debug_output_shows_the_digits() {
    let code = StandardCode::from_digits("12345679").unwrap();
    assert!(format!("{:?}", code).contains("0012345679"));
}
