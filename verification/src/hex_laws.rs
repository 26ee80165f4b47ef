//! What holds of hexadecimal text: the written forms denote the values they
//! were written from, and the readers read them back.

use crate::hex::{
    be_value, byte_string, bytes_of_digits, data, digit_char, digit_value, digits_of_bytes,
    hex_value, is_hex, leading_zeros, lemma_leading_zeros, minimal_digits, number, quantity,
    without_prefix, without_prefixes,
};
use vstd::prelude::*;

verus! {

/// A written digit is a lower-case hexadecimal digit of the value it was
/// written from, and neither `x` nor `X`.
pub proof fn lemma_digit_char(v: int)
    requires
        0 <= v < 16,
    ensures
        digit_value(digit_char(v)) == Some(v as u8),
        digit_char(v) != 'x',
        digit_char(v) != 'X',
        digit_char(v) != '+',
        digit_char(v) == '0' <==> v == 0,
{
}

/// The digits of a byte string are hexadecimal digits, two for each byte.
pub proof fn lemma_digits_are_hex(bytes: Seq<u8>)
    ensures
        digits_of_bytes(bytes).len() == 2 * bytes.len(),
        is_hex(digits_of_bytes(bytes)),
{
    let digits = digits_of_bytes(bytes);
    assert forall|i: int| 0 <= i < digits.len() implies (#[trigger] digit_value(digits[i]))
        is Some by {
        let byte = bytes[i / 2] as int;
        lemma_digit_char(byte / 16);
        lemma_digit_char(byte % 16);
    }
}

/// A byte string that was written is read back as it was, with or without
/// the `0x` in front.
pub proof fn lemma_bytes_round_trip(bytes: Seq<u8>)
    ensures
        byte_string(digits_of_bytes(bytes)) == Some(bytes),
        byte_string(data(bytes)) == Some(bytes),
{
    let digits = digits_of_bytes(bytes);
    lemma_digits_are_hex(bytes);
    if digits.len() >= 2 {
        lemma_digit_char(bytes[0] as int % 16);
    }
    assert forall|i: int| 0 <= i < bytes.len() implies bytes_of_digits(digits)[i] == bytes[i] by {
        let byte = bytes[i] as int;
        lemma_digit_char(byte / 16);
        lemma_digit_char(byte % 16);
    }
    reveal_strlit("0x");
}

/// The digits of a byte string denote the number that the bytes denote.
pub proof fn lemma_digits_value(bytes: Seq<u8>)
    ensures
        hex_value(digits_of_bytes(bytes)) == be_value(bytes),
    decreases bytes.len(),
{
    if bytes.len() > 0 {
        let digits = digits_of_bytes(bytes);
        let shorter = bytes.drop_last();
        let byte = bytes.last() as int;
        lemma_digits_value(shorter);
        lemma_digit_char(byte / 16);
        lemma_digit_char(byte % 16);
        let high = digits.drop_last();
        assert(high.drop_last() =~= digits_of_bytes(shorter));
        assert(hex_value(digits) == 16 * hex_value(high) + byte % 16);
    }
}

/// Zeros in front change nothing of what a run of digits denotes.
pub proof fn lemma_zeros_in_front(s: Seq<char>, k: int)
    requires
        0 <= k <= s.len(),
        forall|j: int| 0 <= j < k ==> s[j] == '0',
    ensures
        hex_value(s.subrange(k, s.len() as int)) == hex_value(s),
    decreases s.len(),
{
    let rest = s.subrange(k, s.len() as int);
    if k == s.len() {
        if s.len() > 0 {
            lemma_zeros_in_front(s.drop_last(), k - 1);
        }
    } else {
        lemma_zeros_in_front(s.drop_last(), k);
        assert(s.drop_last().subrange(k, s.len() - 1) =~= rest.drop_last());
    }
}

/// The written digits of a number are hexadecimal digits that denote it,
/// and they start with a zero only where they are the single digit `0`.
pub proof fn lemma_minimal_digits(bytes: Seq<u8>)
    ensures
        minimal_digits(bytes).len() >= 1,
        is_hex(minimal_digits(bytes)),
        hex_value(minimal_digits(bytes)) == be_value(bytes),
        minimal_digits(bytes)[0] == '0' ==> minimal_digits(bytes) == seq!['0'],
        minimal_digits(bytes)[0] != '+',
{
    let all = digits_of_bytes(bytes);
    let k = leading_zeros(all) as int;
    lemma_digits_are_hex(bytes);
    lemma_digits_value(bytes);
    lemma_zeros_run(all);
    lemma_zeros_in_front(all, k);
    if k >= all.len() {
        assert(hex_value(seq!['0']) == 0) by {
            reveal_with_fuel(hex_value, 2);
        }
    } else {
        let digits = all.subrange(k, all.len() as int);
        let byte = bytes[k / 2] as int;
        lemma_digit_char(byte / 16);
        lemma_digit_char(byte % 16);
        assert forall|i: int| 0 <= i < digits.len() implies (#[trigger] digit_value(digits[i]))
            is Some by {
            assert(digits[i] == all[k + i]);
        }
    }
}

/// The leading zeros of a text are zeros, and what follows them is not.
pub proof fn lemma_zeros_run(s: Seq<char>)
    ensures
        leading_zeros(s) <= s.len(),
        forall|j: int| 0 <= j < leading_zeros(s) ==> s[j] == '0',
        leading_zeros(s) < s.len() ==> s[leading_zeros(s) as int] != '0',
    decreases s.len(),
{
    if s.len() > 0 && s[0] == '0' {
        let rest = s.drop_first();
        lemma_zeros_run(rest);
        assert forall|j: int| 0 <= j < leading_zeros(s) implies s[j] == '0' by {
            if j > 0 {
                assert(s[j] == rest[j - 1]);
            }
        }
    }
}

/// A number that the gateway wrote is read back as the same number, as long
/// as it fits 64 bits: an identifier handed out is accepted when it returns.
pub proof fn lemma_quantity_round_trip(bytes: Seq<u8>)
    requires
        be_value(bytes) <= u64::MAX,
    ensures
        number(without_prefixes(quantity(bytes))) == Some(be_value(bytes) as u64),
{
    let digits = minimal_digits(bytes);
    let written = quantity(bytes);
    lemma_minimal_digits(bytes);
    reveal_strlit("0x");
    assert(written.subrange(2, written.len() as int) =~= digits);
    assert(without_prefixes(digits) == digits);
}

} // verus!
