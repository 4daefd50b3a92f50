//! Unsigned decimal text.

use crate::utils::{ascii_bytes, hex_char, hex_digit_str};
use vstd::prelude::*;
use vstd::string::*;

verus! {

/// The decimal digits of `n`, most significant first, without leading zeros.
pub open spec fn decimal_text(n: nat) -> Seq<char>
    decreases n,
{
    if n < 10 {
        seq![hex_char(n as int)]
    } else {
        decimal_text(n / 10).push(hex_char((n % 10) as int))
    }
}

/// At least one byte, each an ASCII decimal digit.
pub open spec fn is_digits(text: Seq<u8>) -> bool {
    &&& text.len() > 0
    &&& forall|i: int| 0 <= i < text.len() ==> 48 <= #[trigger] text[i] <= 57
}

/// The number that a run of decimal digits spells.
pub open spec fn digits_value(text: Seq<u8>) -> nat
    decreases text.len(),
{
    if text.len() == 0 {
        0
    } else {
        digits_value(text.drop_last()) * 10 + (text.last() - 48) as nat
    }
}

/// The text without the one plus sign that may lead it.
pub open spec fn without_sign(text: Seq<u8>) -> Seq<u8> {
    if text.len() > 0 && text[0] == 43 {
        text.drop_first()
    } else {
        text
    }
}

/// The number that decimal text spells: digits, led by at most one plus sign,
/// whose value fits 32 bits. Leading zeros are allowed. Anything else spells nothing.
pub open spec fn parse_decimal(text: Seq<u8>) -> Option<u32> {
    let digits = without_sign(text);
    if is_digits(digits) && digits_value(digits) <= u32::MAX {
        Some(digits_value(digits) as u32)
    } else {
        None
    }
}

/// Decimal text of `n`.
pub fn decimal_str(n: u32) -> (text: String)
    ensures
        text@ == decimal_text(n as nat),
    decreases n,
{
    if n < 10 {
        String::from_str(hex_digit_str(n as u8))
    } else {
        let mut text = decimal_str(n / 10);
        text.append(hex_digit_str((n % 10) as u8));
        text
    }
}

/// Reads decimal text, given as ASCII bytes.
pub fn parse_u32(text: &[u8]) -> (value: Option<u32>)
    ensures
        value == parse_decimal(text@),
{
    let start: usize = if text.len() > 0 && text[0] == 43 {
        1
    } else {
        0
    };
    let ghost digits = without_sign(text@);
    assert(digits =~= text@.subrange(start as int, text.len() as int));
    if start == text.len() {
        return None;
    }
    let mut value: u32 = 0;
    let mut i: usize = start;
    while i < text.len()
        invariant
            start <= i <= text.len(),
            start < text.len(),
            digits == text@.subrange(start as int, text.len() as int),
            digits == without_sign(text@),
            forall|k: int| 0 <= k < i - start ==> 48 <= #[trigger] digits[k] <= 57,
            value == digits_value(digits.take(i - start)),
        decreases text.len() - i,
    {
        let c = text[i];
        assert(c == digits[i - start]);
        if c < 48 || c > 57 {
            return None;
        }
        let ghost next = digits.take(i - start + 1);
        assert(next.drop_last() =~= digits.take(i - start));
        assert(digits_value(next) == value * 10 + (c - 48));
        let wide: u64 = (value as u64) * 10 + ((c - 48) as u64);
        if wide > 0xffff_ffff {
            proof {
                if is_digits(digits) {
                    lemma_digits_value_prefix(digits, i - start + 1);
                }
            }
            return None;
        }
        value = wide as u32;
        i += 1;
    }
    assert(digits.take(i - start) =~= digits);
    Some(value)
}

/// Digits added at the end never make the number smaller.
pub proof fn lemma_digits_value_prefix(text: Seq<u8>, k: int)
    requires
        0 <= k <= text.len(),
        forall|i: int| 0 <= i < text.len() ==> 48 <= #[trigger] text[i] <= 57,
    ensures
        digits_value(text.take(k)) <= digits_value(text),
    decreases text.len(),
{
    if k == text.len() {
        assert(text.take(k) =~= text);
    } else {
        lemma_digits_value_prefix(text.drop_last(), k);
        assert(text.drop_last().take(k) =~= text.take(k));
    }
}

/// What `decimal_str` writes is a run of digits that spells the same number.
pub proof fn lemma_decimal_digits(n: nat)
    ensures
        is_digits(ascii_bytes(decimal_text(n))),
        digits_value(ascii_bytes(decimal_text(n))) == n,
    decreases n,
{
    let text = ascii_bytes(decimal_text(n));
    if n < 10 {
        assert(text.drop_last() =~= Seq::<u8>::empty());
        assert(digits_value(Seq::<u8>::empty()) == 0);
        assert(text.last() == 48 + n);
    } else {
        lemma_decimal_digits(n / 10);
        let head = ascii_bytes(decimal_text(n / 10));
        assert(text.drop_last() =~= head);
        assert(text.last() == 48 + n % 10);
        assert forall|i: int| 0 <= i < text.len() implies 48 <= #[trigger] text[i] <= 57 by {
            if i < head.len() {
                assert(text[i] == head[i]);
            }
        }
    }
}

/// Reading undoes writing: `parse_u32` reads `n` back from what `decimal_str`
/// writes for it.
pub proof fn lemma_decimal_round_trip(n: u32)
    ensures
        parse_decimal(ascii_bytes(decimal_text(n as nat))) == Some(n),
{
    lemma_decimal_digits(n as nat);
}

} // verus!
