//! The mathematical description of a valid national code, over sequences of
//! characters and unbounded integers.

use vstd::prelude::*;

verus! {

/// Number of digits of a code in standard form.
pub const STANDARD_LEN: usize = 10;

/// A code with fewer digits than this is rejected.
pub const MIN_DIGITS: usize = 8;

/// Number of leading digits that the checksum is computed over.
pub const PAYLOAD_LEN: usize = 9;

/// The check digit is derived from the weighted sum modulo this number.
pub const MODULUS: u32 = 11;

/// The largest weighted sum there is, that of nine digits `9`: nine times the
/// sum of the weights 10 down to 2.
pub const MAX_WEIGHTED_SUM: u32 = 486;

/// `c` is one of the ten characters `0` to `9`.
pub open spec fn is_digit(c: char) -> bool {
    '0' <= c && c <= '9'
}

/// [`is_digit`] as a predicate value, for filtering.
pub open spec fn digit_pred() -> spec_fn(char) -> bool {
    |c: char| is_digit(c)
}

/// The number, 0 to 9, that the digit character `c` stands for.
pub open spec fn digit_value(c: char) -> int
    recommends
        is_digit(c),
{
    c as int - '0' as int
}

/// Every character of `s` is a digit.
pub open spec fn all_digits(s: Seq<char>) -> bool {
    forall|i: int| 0 <= i < s.len() ==> is_digit(#[trigger] s[i])
}

/// The cleaned digits of `input`: its digit characters in their order, every
/// other character removed.
pub open spec fn digits_of(input: Seq<char>) -> Seq<char> {
    input.filter(digit_pred())
}

/// `n` times the character `0`.
pub open spec fn zeros(n: nat) -> Seq<char> {
    Seq::new(n, |i: int| '0')
}

/// `digits` padded on the left with `0` to ten characters. A sequence of ten
/// or more is left as it is.
pub open spec fn standardized(digits: Seq<char>) -> Seq<char> {
    if digits.len() >= STANDARD_LEN {
        digits
    } else {
        zeros((STANDARD_LEN - digits.len()) as nat) + digits
    }
}

/// `code` is in standard form: exactly ten digits.
pub open spec fn is_standard(code: Seq<char>) -> bool {
    code.len() == STANDARD_LEN && all_digits(code)
}

/// Every character of `code` is the same.
pub open spec fn uniform(code: Seq<char>) -> bool {
    forall|i: int| 0 <= i < code.len() ==> #[trigger] code[i] == code[0]
}

/// The weight of the payload digit at `index`: 10 for the first, 2 for the
/// ninth.
pub open spec fn weight(index: int) -> int {
    STANDARD_LEN - index
}

/// The weighted sum of the first `n` digits of `code`.
pub open spec fn weighted_prefix(code: Seq<char>, n: nat) -> int
    decreases n,
{
    if n == 0 {
        0
    } else {
        weighted_prefix(code, (n - 1) as nat) + digit_value(code[n - 1]) * weight(n - 1)
    }
}

/// The weighted sum of the payload, the first nine digits of `code`.
pub open spec fn weighted_sum(code: Seq<char>) -> int {
    weighted_prefix(code, PAYLOAD_LEN as nat)
}

/// The check digit that belongs to a weighted sum: the remainder modulo 11
/// where that is 0 or 1, and 11 minus the remainder otherwise.
pub open spec fn expected_check_digit(sum: int) -> int {
    let remainder = sum % (MODULUS as int);
    if remainder < 2 {
        remainder
    } else {
        MODULUS - remainder
    }
}

/// The check digit that `code` carries: the value of its tenth digit.
pub open spec fn check_digit(code: Seq<char>) -> int {
    digit_value(code[STANDARD_LEN - 1])
}

/// A code in standard form is valid when its digits are not all the same and
/// its tenth digit is the check digit of the first nine.
pub open spec fn valid_standard(code: Seq<char>) -> bool {
    &&& !uniform(code)
    &&& check_digit(code) == expected_check_digit(weighted_sum(code))
}

/// A text is a valid national code when it holds eight to ten digits and
/// these, padded to standard form, are valid.
pub open spec fn valid_code(input: Seq<char>) -> bool {
    let cleaned = digits_of(input);
    &&& MIN_DIGITS <= cleaned.len() <= STANDARD_LEN
    &&& valid_standard(standardized(cleaned))
}

} // verus!
