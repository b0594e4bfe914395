//! What holds of every input: facts about normalization, padding and the
//! verdict, each proved from the definitions in [`crate::model`].

use crate::model::{
    all_digits, check_digit, digit_pred, digit_value, digits_of, expected_check_digit, is_digit,
    is_standard, standardized, uniform, valid_code, valid_standard, weighted_prefix, weighted_sum,
    MAX_WEIGHTED_SUM, MIN_DIGITS, STANDARD_LEN,
};
use vstd::prelude::*;

verus! {

/// The cleaned digits of a text are digits, and there are no more of them
/// than the text has characters.
pub proof fn lemma_cleaned_digits_are_digits(input: Seq<char>)
    ensures
        all_digits(digits_of(input)),
        digits_of(input).len() <= input.len(),
{
    input.lemma_filter_len(digit_pred());
    assert forall|i: int| 0 <= i < digits_of(input).len() implies is_digit(
        #[trigger] digits_of(input)[i],
    ) by {
        input.lemma_filter_pred(digit_pred(), i);
    }
}

/// Cleaning leaves a text that holds digits only as it is.
pub proof fn lemma_digits_stay(digits: Seq<char>)
    requires
        all_digits(digits),
    ensures
        digits_of(digits) == digits,
    decreases digits.len(),
{
    reveal(Seq::filter);
    if digits.len() > 0 {
        lemma_digits_stay(digits.drop_last());
        assert(is_digit(digits.last()));
        assert(digits.drop_last().push(digits.last()) =~= digits);
    }
}

/// Normalization is idempotent: cleaning what was cleaned changes nothing.
pub proof fn lemma_cleaning_idempotent(input: Seq<char>)
    ensures
        digits_of(digits_of(input)) == digits_of(input),
{
    lemma_cleaned_digits_are_digits(input);
    lemma_digits_stay(digits_of(input));
}

/// A character that is no digit, put anywhere into a text, changes neither
/// the cleaned digits nor the verdict. Any number of such characters can be
/// put in one after the other.
pub proof fn lemma_non_digit_ignored(input: Seq<char>, at: int, c: char)
    requires
        0 <= at <= input.len(),
        !is_digit(c),
    ensures
        digits_of(input.insert(at, c)) == digits_of(input),
        valid_code(input.insert(at, c)) == valid_code(input),
{
    let head = input.subrange(0, at);
    let tail = input.subrange(at, input.len() as int);
    let pred = digit_pred();
    assert(head.push(c).filter(pred) == head.filter(pred)) by {
        reveal(Seq::filter);
        assert(head.push(c).drop_last() =~= head);
    }
    Seq::filter_distributes_over_add(head.push(c), tail, pred);
    Seq::filter_distributes_over_add(head, tail, pred);
    assert(head + tail =~= input);
}

/// A run of characters none of which is a digit, put anywhere into a text,
/// changes neither the cleaned digits nor the verdict.
pub proof fn lemma_non_digits_ignored(input: Seq<char>, at: int, inserted: Seq<char>)
    requires
        0 <= at <= input.len(),
        forall|i: int| 0 <= i < inserted.len() ==> !is_digit(#[trigger] inserted[i]),
    ensures
        digits_of(input.take(at) + inserted + input.skip(at)) == digits_of(input),
        valid_code(input.take(at) + inserted + input.skip(at)) == valid_code(input),
    decreases inserted.len(),
{
    let head = input.take(at);
    let tail = input.skip(at);
    if inserted.len() == 0 {
        assert(head + inserted + tail =~= input);
    } else {
        let rest = inserted.drop_last();
        let longer = head + rest + tail;
        lemma_non_digits_ignored(input, at, rest);
        lemma_non_digit_ignored(longer, at + rest.len(), inserted.last());
        assert(longer.insert(at + rest.len(), inserted.last()) =~= head + inserted + tail);
    }
}

/// Two texts with the same digits in the same order get the same verdict,
/// whatever else they hold.
pub proof fn lemma_verdict_depends_on_digits(a: Seq<char>, b: Seq<char>)
    requires
        digits_of(a) == digits_of(b),
    ensures
        valid_code(a) == valid_code(b),
{
}

/// A text with fewer than eight or more than ten digits is not valid.
pub proof fn lemma_wrong_length_invalid(input: Seq<char>)
    requires
        digits_of(input).len() < MIN_DIGITS || digits_of(input).len() > STANDARD_LEN,
    ensures
        !valid_code(input),
{
}

/// Up to ten digits, padded, are in standard form, and the padding keeps the
/// digits at the end.
pub proof fn lemma_standardized_is_standard(digits: Seq<char>)
    requires
        all_digits(digits),
        digits.len() <= STANDARD_LEN,
    ensures
        is_standard(standardized(digits)),
        standardized(digits).skip(STANDARD_LEN - digits.len()) == digits,
        forall|i: int|
            0 <= i < STANDARD_LEN - digits.len() ==> #[trigger] standardized(digits)[i] == '0',
{
    let code = standardized(digits);
    let pad = STANDARD_LEN - digits.len();
    assert forall|i: int| 0 <= i < code.len() implies is_digit(#[trigger] code[i]) by {
        if i >= pad {
            assert(code[i] == digits[i - pad]);
        }
    }
    assert(code.skip(pad) =~= digits);
}

/// A code in standard form is its own standard form.
pub proof fn lemma_standard_form_stays(code: Seq<char>)
    requires
        is_standard(code),
    ensures
        standardized(digits_of(code)) == code,
        valid_code(code) == valid_standard(code),
{
    lemma_digits_stay(code);
}

/// Padding equivalence: a code in standard form that begins with zeros may
/// be written without one or two of them, as nine or eight digits, and the
/// verdict is the same.
pub proof fn lemma_leading_zeros_optional(code: Seq<char>, dropped: int)
    requires
        is_standard(code),
        0 <= dropped <= STANDARD_LEN - MIN_DIGITS,
        forall|i: int| 0 <= i < dropped ==> #[trigger] code[i] == '0',
    ensures
        standardized(digits_of(code.skip(dropped))) == code,
        valid_code(code.skip(dropped)) == valid_code(code),
{
    let short = code.skip(dropped);
    assert(all_digits(short)) by {
        assert forall|i: int| 0 <= i < short.len() implies is_digit(#[trigger] short[i]) by {
            assert(short[i] == code[i + dropped]);
        }
    }
    lemma_digits_stay(short);
    lemma_digits_stay(code);
    assert(standardized(short) =~= code);
}

/// The weighted sum written out: ten times the first digit, nine times the
/// second, and so on to twice the ninth.
pub proof fn lemma_weighted_sum_written_out(code: Seq<char>)
    ensures
        weighted_sum(code) == 10 * digit_value(code[0]) + 9 * digit_value(code[1]) + 8
            * digit_value(code[2]) + 7 * digit_value(code[3]) + 6 * digit_value(code[4]) + 5
            * digit_value(code[5]) + 4 * digit_value(code[6]) + 3 * digit_value(code[7]) + 2
            * digit_value(code[8]),
{
    reveal_with_fuel(weighted_prefix, 10);
}

/// The weighted sum of a code in standard form is not negative and not
/// above that of nine digits `9`.
pub proof fn lemma_weighted_sum_bounds(code: Seq<char>)
    requires
        is_standard(code),
    ensures
        0 <= weighted_sum(code) <= MAX_WEIGHTED_SUM,
{
    lemma_weighted_sum_written_out(code);
    assert(is_digit(code[0]) && is_digit(code[1]) && is_digit(code[2]) && is_digit(code[3])
        && is_digit(code[4]) && is_digit(code[5]) && is_digit(code[6]) && is_digit(code[7])
        && is_digit(code[8]));
}

/// The expected check digit is a digit: it lies between 0 and 9 for every
/// weighted sum.
pub proof fn lemma_expected_check_digit_is_digit(sum: int)
    ensures
        0 <= expected_check_digit(sum) <= 9,
{
}

/// The checksum alone accepts every code of ten equal digits: its tenth
/// digit is the check digit of the other nine.
pub proof fn lemma_uniform_passes_checksum(code: Seq<char>)
    requires
        is_standard(code),
        uniform(code),
    ensures
        check_digit(code) == expected_check_digit(weighted_sum(code)),
{
    lemma_weighted_sum_written_out(code);
    let d = digit_value(code[0]);
    assert(is_digit(code[0]));
    assert(code[1] == code[0] && code[2] == code[0] && code[3] == code[0] && code[4] == code[0]
        && code[5] == code[0] && code[6] == code[0] && code[7] == code[0] && code[8] == code[0]
        && code[9] == code[0]);
    assert(weighted_sum(code) == 54 * d);
}

/// A code of ten equal digits is not valid, although the checksum alone
/// would accept it.
pub proof fn lemma_uniform_invalid(code: Seq<char>)
    requires
        is_standard(code),
        uniform(code),
    ensures
        !valid_code(code),
        !valid_standard(code),
{
    lemma_standard_form_stays(code);
}

/// Whatever the input, a valid code has eight to ten digits, its standard
/// form does not repeat one digit, and the tenth digit of that form is the
/// check digit of the first nine.
pub proof fn lemma_valid_code_properties(input: Seq<char>)
    requires
        valid_code(input),
    ensures
        MIN_DIGITS <= digits_of(input).len() <= STANDARD_LEN,
        is_standard(standardized(digits_of(input))),
        !uniform(standardized(digits_of(input))),
        check_digit(standardized(digits_of(input))) == expected_check_digit(
            weighted_sum(standardized(digits_of(input))),
        ),
{
    lemma_cleaned_digits_are_digits(input);
    lemma_standardized_is_standard(digits_of(input));
}

} // verus!
