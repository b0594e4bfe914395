//! The validator: from a text to the verdict on it.

use crate::checksum::{check_digit, expected_check_digit, weighted_sum};
use crate::laws::{lemma_cleaned_digits_are_digits, lemma_uniform_invalid};
use crate::model::{
    digits_of, is_standard, uniform, valid_code, valid_standard, MIN_DIGITS, STANDARD_LEN,
};
use crate::normalize::cleaned_digits;
use crate::standard::StandardCode;
use vstd::prelude::*;

verus! {

/// Whether a code in standard form is valid: its digits are not all the
/// same, and its tenth digit is the check digit of the first nine.
pub fn is_valid_standard(code: &StandardCode) -> (valid: bool)
    ensures
        valid == valid_standard(code@),
{
    !code.is_uniform() && check_digit(code) == expected_check_digit(weighted_sum(code))
}

/// Whether `input` is a valid national code. Characters other than the
/// digits `0` to `9` are ignored. A text with fewer than eight or more than
/// ten digits is not valid, and neither is one digit written ten times.
pub fn is_valid(input: &str) -> (valid: bool)
    ensures
        valid == valid_code(input@),
        digits_of(input@).len() < MIN_DIGITS || digits_of(input@).len() > STANDARD_LEN ==> !valid,
        is_standard(input@) && uniform(input@) ==> !valid,
{
    let cleaned = cleaned_digits(input);
    proof {
        lemma_cleaned_digits_are_digits(input@);
        if is_standard(input@) && uniform(input@) {
            lemma_uniform_invalid(input@);
        }
    }
    match StandardCode::from_digits(cleaned.as_str()) {
        Some(code) => is_valid_standard(&code),
        None => false,
    }
}

} // verus!
