//! Channel identifiers, and how the configured text is read as one.
//!
//! The configuration keeps the channel identifier as text. It is read as a
//! number each time a message arrives: an optional `+`, then one or more
//! decimal digits, nothing else, and a value that fits in 64 bits.

use vstd::prelude::*;
use vstd::string::*;
use vstd::utf8::*;

verus! {

/// The byte that encodes `+`.
const PLUS_SIGN: u8 = 0x2b;

/// The byte that encodes `0`.
const DIGIT_ZERO: u8 = 0x30;

/// The byte that encodes `9`.
const DIGIT_NINE: u8 = 0x39;

/// Whether `c` is one of `0` to `9`.
pub open spec fn is_digit(c: char) -> bool {
    '0' <= c && c <= '9'
}

/// The number a decimal digit stands for; 0 for any other character.
pub open spec fn digit_value(c: char) -> nat {
    if is_digit(c) {
        (c as int - '0' as int) as nat
    } else {
        0
    }
}

/// The number written by a sequence of decimal digits, most significant first.
pub open spec fn decimal_value(digits: Seq<char>) -> nat
    decreases digits.len(),
{
    if digits.len() == 0 {
        0
    } else {
        10 * decimal_value(digits.drop_last()) + digit_value(digits.last())
    }
}

/// Whether `digits` is a non-empty run of decimal digits.
pub open spec fn is_decimal(digits: Seq<char>) -> bool {
    &&& digits.len() > 0
    &&& forall|i: int| 0 <= i < digits.len() ==> is_digit(#[trigger] digits[i])
}

/// `text` without its leading `+`, if it has one.
pub open spec fn without_plus_sign(text: Seq<char>) -> Seq<char> {
    if text.len() > 0 && text[0] == '+' {
        text.drop_first()
    } else {
        text
    }
}

/// The channel identifier that `text` denotes, if it denotes one.
pub open spec fn channel_of(text: Seq<char>) -> Option<u64> {
    let digits = without_plus_sign(text);
    if is_decimal(digits) && decimal_value(digits) <= u64::MAX {
        Some(decimal_value(digits) as u64)
    } else {
        None
    }
}

/// A prefix of a digit sequence never denotes more than the whole.
proof fn lemma_prefix_value(digits: Seq<char>, k: int)
    requires
        0 <= k <= digits.len(),
    ensures
        decimal_value(digits.take(k)) <= decimal_value(digits),
    decreases digits.len(),
{
    if k == digits.len() {
        assert(digits.take(k) =~= digits);
    } else {
        lemma_prefix_value(digits.drop_last(), k);
        assert(digits.drop_last().take(k) =~= digits.take(k));
    }
}

/// Extending a prefix by one digit multiplies its value by ten and adds the digit.
proof fn lemma_value_step(digits: Seq<char>, k: int)
    requires
        0 <= k < digits.len(),
    ensures
        decimal_value(digits.take(k + 1)) == 10 * decimal_value(digits.take(k)) + digit_value(
            digits[k],
        ),
{
    assert(digits.take(k + 1).drop_last() =~= digits.take(k));
}

/// Reads the configured channel text as a channel identifier.
///
/// Returns the identifier exactly when the text is an optional `+` followed by
/// one or more decimal digits whose value fits in 64 bits.
pub fn parse_channel_id(text: &str) -> (id: Option<u64>)
    ensures
        id == channel_of(text@),
{
    let bytes = text.as_bytes();
    if !text.is_ascii() {
        proof {
            let digits = without_plus_sign(text@);
            if is_decimal(digits) {
                assert forall|i: int| 0 <= i < text@.len() implies '\0' <= #[trigger] text@[i]
                    <= '\u{7f}' by {
                    if text@[0] == '+' {
                        if i > 0 {
                            assert(is_digit(digits[i - 1]));
                        }
                    } else {
                        assert(is_digit(digits[i]));
                    }
                }
            }
        }
        return None;
    }
    proof {
        is_ascii_chars_encode_utf8(text@);
    }
    let len: usize = bytes.len();
    let start: usize = if len > 0 && bytes[0] == PLUS_SIGN {
        1
    } else {
        0
    };
    let ghost digits = without_plus_sign(text@);
    assert(digits.len() == len - start);
    assert(forall|j: int| 0 <= j < digits.len() ==> digits[j] == text@[start + j]);
    if start == len {
        return None;
    }
    let mut value: u64 = 0;
    let mut i: usize = start;
    while i < len
        invariant
            start <= i <= len,
            len == bytes@.len(),
            len == text@.len(),
            digits == without_plus_sign(text@),
            digits.len() == len - start,
            forall|j: int| 0 <= j < len ==> text@[j] as u8 == #[trigger] bytes@[j],
            forall|j: int| 0 <= j < len ==> '\0' <= #[trigger] text@[j] <= '\u{7f}',
            forall|j: int| 0 <= j < digits.len() ==> #[trigger] digits[j] == text@[start + j],
            forall|j: int| 0 <= j < i - start ==> is_digit(#[trigger] digits[j]),
            value == decimal_value(digits.take(i - start)),
        decreases len - i,
    {
        let b: u8 = bytes[i];
        let ghost k: int = i - start;
        assert(digits[k] == text@[i as int]);
        if b < DIGIT_ZERO || b > DIGIT_NINE {
            assert(!is_digit(digits[k]));
            return None;
        }
        assert(is_digit(digits[k]));
        assert(digit_value(digits[k]) == b - DIGIT_ZERO);
        proof {
            lemma_value_step(digits, k);
            lemma_prefix_value(digits, k + 1);
        }
        let scaled: u64 = match value.checked_mul(10) {
            Some(v) => v,
            None => {
                return None;
            },
        };
        value = match scaled.checked_add((b - DIGIT_ZERO) as u64) {
            Some(v) => v,
            None => {
                return None;
            },
        };
        i = i + 1;
    }
    assert(digits.take(len - start) =~= digits);
    Some(value)
}

} // verus!
