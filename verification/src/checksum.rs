//! The weighted checksum of a code in standard form.

use crate::laws::lemma_weighted_sum_bounds;
use crate::model;
use crate::model::{
    is_standard, weight, weighted_prefix, MAX_WEIGHTED_SUM, MODULUS, PAYLOAD_LEN, STANDARD_LEN,
};
use crate::standard::StandardCode;
use vstd::prelude::*;

verus! {

/// The weighted sum of the payload: the first digit times 10, the second
/// times 9, and so on to the ninth times 2.
pub fn weighted_sum(code: &StandardCode) -> (sum: u32)
    ensures
        sum == model::weighted_sum(code@),
        sum <= MAX_WEIGHTED_SUM,
{
    proof {
        use_type_invariant(code);
        lemma_weighted_sum_bounds(code@);
    }
    let mut sum: u32 = 0;
    let mut i: usize = 0;
    while i < PAYLOAD_LEN
        invariant
            i <= PAYLOAD_LEN,
            is_standard(code@),
            sum == weighted_prefix(code@, i as nat),
            // No digit is above 9 and no weight above 10.
            sum <= 90 * i,
        decreases PAYLOAD_LEN - i,
    {
        let value: u32 = code.digit(i) as u32;
        let factor: u32 = (STANDARD_LEN - i) as u32;
        assert(value * factor <= 90) by (nonlinear_arith)
            requires
                value <= 9,
                factor <= 10,
        ;
        assert(value * factor == model::digit_value(code@[i as int]) * weight(i as int));
        sum = sum + value * factor;
        i += 1;
    }
    sum
}

/// The check digit that the code carries: its tenth digit.
pub fn check_digit(code: &StandardCode) -> (digit: u32)
    ensures
        digit == model::check_digit(code@),
        digit <= 9,
{
    code.digit(STANDARD_LEN - 1) as u32
}

/// Derives the check digit from a weighted sum.
pub fn expected_check_digit(sum: u32) -> (digit: u32)
    ensures
        digit == model::expected_check_digit(sum as int),
        digit <= 9,
{
    let remainder: u32 = sum % MODULUS;
    if remainder < 2 {
        remainder
    } else {
        MODULUS - remainder
    }
}

} // verus!
