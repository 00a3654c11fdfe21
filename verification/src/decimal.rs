//! Unsigned integers in decimal notation.
//!
//! The numbers on the command line arrive as text. A text is a number when it
//! is one optional `+` followed by at least one digit `0` to `9` and nothing
//! else; leading zeros do not matter. These are the texts that `str::parse`
//! takes for an unsigned integer type.

use vstd::prelude::*;

verus! {

/// Whether `c` is one of the digits `0` to `9`.
pub open spec fn is_digit(c: char) -> bool {
    '0' <= c <= '9'
}

/// The number that the digit `c` stands for; 0 for any other character.
pub open spec fn digit_value(c: char) -> nat {
    if is_digit(c) {
        (c as u32 - '0' as u32) as nat
    } else {
        0
    }
}

/// The number that the digits `digits` write, the most significant first.
pub open spec fn decimal_value(digits: Seq<char>) -> nat
    decreases digits.len(),
{
    if digits.len() == 0 {
        0
    } else {
        decimal_value(digits.drop_last()) * 10 + digit_value(digits.last())
    }
}

/// `text` without its leading `+`, if it has one.
pub open spec fn unsigned_part(text: Seq<char>) -> Seq<char> {
    if text.len() > 0 && text[0] == '+' {
        text.subrange(1, text.len() as int)
    } else {
        text
    }
}

/// Whether every character of `digits` is a digit.
pub open spec fn all_digits(digits: Seq<char>) -> bool {
    forall|i: int| 0 <= i < digits.len() ==> is_digit(#[trigger] digits[i])
}

/// The number that `text` writes, if it writes one that is at most `max`.
pub open spec fn parse_unsigned(text: Seq<char>, max: nat) -> Option<nat> {
    let digits = unsigned_part(text);
    if digits.len() > 0 && all_digits(digits) && decimal_value(digits) <= max {
        Some(decimal_value(digits))
    } else {
        None
    }
}

/// The first digits of a number write a number that is not larger.
proof fn lemma_prefix_is_not_larger(digits: Seq<char>, len: int)
    requires
        0 <= len <= digits.len(),
    ensures
        decimal_value(digits.subrange(0, len)) <= decimal_value(digits),
    decreases digits.len(),
{
    if len == digits.len() {
        assert(digits.subrange(0, len) =~= digits);
    } else {
        lemma_prefix_is_not_larger(digits.drop_last(), len);
        assert(digits.drop_last().subrange(0, len) =~= digits.subrange(0, len));
    }
}

/// Reads `text` as an unsigned integer of at most `max`.
pub fn parse_decimal(text: &str, max: u64) -> (value: Option<u64>)
    ensures
        value == match parse_unsigned(text@, max as nat) {
            Some(number) => Some(number as u64),
            None => None,
        },
{
    let len: usize = text.unicode_len();
    let mut at: usize = 0;
    if len > 0 && text.get_char(0) == '+' {
        at = 1;
    }
    if at == len {
        return None;
    }
    let start: usize = at;
    let ghost digits = unsigned_part(text@);
    let mut number: u64 = 0;
    assert(digits.subrange(0, 0) =~= Seq::<char>::empty());
    while at < len
        invariant
            start <= at <= len,
            len == text@.len(),
            digits == unsigned_part(text@),
            digits == text@.subrange(start as int, len as int),
            all_digits(digits.subrange(0, at - start)),
            number == decimal_value(digits.subrange(0, at - start)),
            number <= max,
        decreases len - at,
    {
        let c: char = text.get_char(at);
        let ghost read = digits.subrange(0, at - start);
        let ghost more = digits.subrange(0, at + 1 - start);
        assert(more.drop_last() =~= read);
        if !('0' <= c && c <= '9') {
            assert(!is_digit(digits[at - start]));
            return None;
        }
        let digit: u32 = c as u32 - '0' as u32;
        let grown: u128 = number as u128 * 10 + digit as u128;
        if grown > max as u128 {
            proof {
                lemma_prefix_is_not_larger(digits, at + 1 - start);
            }
            return None;
        }
        assert(all_digits(more)) by {
            assert forall|i: int| 0 <= i < more.len() implies is_digit(#[trigger] more[i]) by {
                if i < read.len() {
                    assert(more[i] == read[i]);
                }
            }
        }
        number = grown as u64;
        at = at + 1;
    }
    assert(digits.subrange(0, len - start) =~= digits);
    Some(number)
}

} // verus!
