//! Normalization: from arbitrary text to its digits.

use crate::model::digits_of;
use vstd::prelude::*;

verus! {

/// The pattern of one character that is none of `0` to `9`.
const NON_DIGIT: &'static str = "[^0-9]";

/// Runs `regex::Regex::new` on `pattern` and `regex::Regex::replace_all` of
/// the compiled expression on `haystack` and `replacement`.
///
/// Trusted, not proved: the pattern `[^0-9]` matches each single character
/// other than `0` to `9`, and with an empty replacement every match is
/// dropped, so that what comes back is the digits of `haystack` in their
/// order. Other patterns and replacements are not admitted.
#[verifier::external_body]
fn replace_all(pattern: &str, haystack: &str, replacement: &str) -> (replaced: String)
    requires
        pattern@ == NON_DIGIT@,
        replacement@.len() == 0,
    ensures
        replaced@ == digits_of(haystack@),
{
    regex::Regex::new(pattern).unwrap().replace_all(haystack, replacement).into_owned()
}

/// Removes every character that is not a digit.
pub fn cleaned_digits(input: &str) -> (cleaned: String)
    ensures
        cleaned@ == digits_of(input@),
{
    proof {
        reveal_strlit("");
    }
    replace_all(NON_DIGIT, input, "")
}

} // verus!
