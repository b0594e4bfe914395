//! The standard form of a code: ten digits, padded on the left with zeros.

use crate::model::{
    all_digits, digit_value, is_digit, is_standard, standardized, uniform, zeros, MIN_DIGITS,
    STANDARD_LEN,
};
use vstd::prelude::*;
use vstd::string::*;

verus! {

/// The ASCII code of the character `0`.
const ASCII_ZERO: u8 = 0x30;

/// The ASCII code of the character `9`.
const ASCII_NINE: u8 = 0x39;

/// A code in standard form. It always holds exactly ten digits, the most
/// significant first.
#[derive(Debug)]
pub struct StandardCode {
    text: String,
}

impl View for StandardCode {
    type V = Seq<char>;

    /// The ten digit characters.
    closed spec fn view(&self) -> Seq<char> {
        self.text@
    }
}

/// A sequence of digits holds ASCII characters only.
proof fn lemma_digits_are_ascii(s: Seq<char>)
    requires
        all_digits(s),
    ensures
        vstd::utf8::is_ascii_chars(s),
{
    assert forall|i: int| 0 <= i < s.len() implies '\0' <= #[trigger] s[i] <= '\u{7f}' by {
        assert(is_digit(s[i]));
    }
}

impl StandardCode {
    /// What holds of every value of this type: it is in standard form.
    #[verifier::type_invariant]
    pub open spec fn well_formed(&self) -> bool {
        is_standard(self@)
    }

    /// Pads eight to ten digits to standard form. Anything else, be it of
    /// another length or with a character that is no digit, gives `None`.
    pub fn from_digits(digits: &str) -> (code: Option<StandardCode>)
        ensures
            code is Some <==> all_digits(digits@) && MIN_DIGITS <= digits@.len() <= STANDARD_LEN,
            code matches Some(c) ==> c@ == standardized(digits@) && is_standard(c@),
    {
        broadcast use is_ascii_spec_bytes;

        proof {
            if all_digits(digits@) {
                lemma_digits_are_ascii(digits@);
            }
            if digits.is_ascii() {
                assert(digits.spec_bytes().len() == digits@.len());
            }
        }
        let n: usize = digits.as_bytes().len();
        if n < MIN_DIGITS || n > STANDARD_LEN || !digits.is_ascii() {
            return None;
        }
        let mut i: usize = 0;
        while i < n
            invariant
                i <= n,
                n == digits@.len(),
                digits.is_ascii(),
                forall|j: int| 0 <= j < i ==> is_digit(#[trigger] digits@[j]),
            decreases n - i,
        {
            let byte: u8 = digits.get_ascii(i);
            if byte < ASCII_ZERO || byte > ASCII_NINE {
                assert(!is_digit(digits@[i as int]));
                return None;
            }
            i += 1;
        }
        let mut text = String::new();
        let mut width: usize = n;
        while width < STANDARD_LEN
            invariant
                n <= width <= STANDARD_LEN,
                text@ == zeros((width - n) as nat),
            decreases STANDARD_LEN - width,
        {
            proof {
                reveal_strlit("0");
                assert(zeros((width - n) as nat) + "0"@ =~= zeros((width + 1 - n) as nat));
            }
            text.append("0");
            width += 1;
        }
        text.append(digits);
        Some(StandardCode { text })
    }

    /// The ten digits as text.
    pub fn as_str(&self) -> (text: &str)
        ensures
            text@ == self@,
            is_standard(text@),
    {
        proof {
            use_type_invariant(self);
        }
        self.text.as_str()
    }

    /// The value of the digit at `index`, counted from 0 at the most
    /// significant digit. There are ten digits, so `index` is below ten.
    pub fn digit(&self, index: usize) -> (value: u8)
        requires
            index < STANDARD_LEN,
        ensures
            value == digit_value(self@[index as int]),
            value <= 9,
    {
        proof {
            use_type_invariant(self);
            lemma_digits_are_ascii(self.text@);
        }
        let byte: u8 = self.text.as_str().get_ascii(index);
        assert(is_digit(self.text@[index as int]));
        byte - ASCII_ZERO
    }

    /// Whether all ten digits are the same.
    pub fn is_uniform(&self) -> (same: bool)
        ensures
            same == uniform(self@),
    {
        proof {
            use_type_invariant(self);
        }
        let first: u8 = self.digit(0);
        let mut i: usize = 1;
        while i < STANDARD_LEN
            invariant
                1 <= i <= STANDARD_LEN,
                is_standard(self@),
                first == digit_value(self@[0]),
                forall|j: int| 0 <= j < i ==> #[trigger] self@[j] == self@[0],
            decreases STANDARD_LEN - i,
        {
            if self.digit(i) != first {
                assert(self@[i as int] != self@[0]);
                return false;
            }
            assert(self@[i as int] == self@[0]);
            i += 1;
        }
        true
    }
}

} // verus!
