//! Hexadecimal text: what the wire forms of addresses, hashes, byte strings
//! and numbers mean, and the functions that read and write them.
//!
//! Fixed-width values and byte strings are read and written by the `alloy`
//! crate; this module states what those calls return over the spec functions
//! below. Numeric identifiers are read by verified code.

use alloy::primitives::{Address, B256};
use vstd::prelude::*;
use vstd::string::StringExecFns;

verus! {

/// The value of a hexadecimal digit, upper or lower case.
pub open spec fn digit_value(c: char) -> Option<u8> {
    if '0' <= c <= '9' {
        Some((c as u8 - '0' as u8) as u8)
    } else if 'a' <= c <= 'f' {
        Some((c as u8 - 'a' as u8 + 10) as u8)
    } else if 'A' <= c <= 'F' {
        Some((c as u8 - 'A' as u8 + 10) as u8)
    } else {
        None
    }
}

/// Whether every character is a hexadecimal digit.
pub open spec fn is_hex(s: Seq<char>) -> bool {
    forall|i: int| 0 <= i < s.len() ==> (#[trigger] digit_value(s[i])) is Some
}

/// The lower-case digit of a value below sixteen.
pub open spec fn digit_char(v: int) -> char {
    if 0 <= v < 10 {
        ('0' as u8 + v) as u8 as char
    } else {
        ('a' as u8 + (v - 10)) as u8 as char
    }
}

/// The number that a sequence of hexadecimal digits denotes.
pub open spec fn hex_value(s: Seq<char>) -> nat
    decreases s.len(),
{
    if s.len() == 0 {
        0
    } else {
        match digit_value(s.last()) {
            Some(d) => 16 * hex_value(s.drop_last()) + d as nat,
            None => 16 * hex_value(s.drop_last()),
        }
    }
}

/// The text without one leading `0x` or `0X`, if it has one.
pub open spec fn without_prefix(s: Seq<char>) -> Seq<char> {
    if s.len() >= 2 && s[0] == '0' && (s[1] == 'x' || s[1] == 'X') {
        s.subrange(2, s.len() as int)
    } else {
        s
    }
}

/// The text without any of its leading `0x` pairs.
pub open spec fn without_prefixes(s: Seq<char>) -> Seq<char>
    decreases s.len(),
{
    if s.len() >= 2 && s[0] == '0' && s[1] == 'x' {
        without_prefixes(s.subrange(2, s.len() as int))
    } else {
        s
    }
}

/// The bytes that pairs of hexadecimal digits denote, high digit first.
pub open spec fn bytes_of_digits(s: Seq<char>) -> Seq<u8> {
    Seq::new(
        s.len() / 2,
        |i: int| (16 * digit_value(s[2 * i]).unwrap() + digit_value(s[2 * i + 1]).unwrap()) as u8,
    )
}

/// The lower-case hexadecimal text of a byte string, two digits a byte.
pub open spec fn digits_of_bytes(bytes: Seq<u8>) -> Seq<char> {
    Seq::new(
        2 * bytes.len(),
        |i: int|
            if i % 2 == 0 {
                digit_char(bytes[i / 2] as int / 16)
            } else {
                digit_char(bytes[i / 2] as int % 16)
            },
    )
}

/// The byte string that a text denotes: an optional `0x` or `0X`, then an
/// even number of hexadecimal digits. `None` for any other text.
pub open spec fn byte_string(s: Seq<char>) -> Option<Seq<u8>> {
    let body = without_prefix(s);
    if body.len() % 2 == 0 && is_hex(body) {
        Some(bytes_of_digits(body))
    } else {
        None
    }
}

/// The value of `width` bytes that a text denotes: an optional `0x` or `0X`,
/// then exactly two hexadecimal digits for each byte.
pub open spec fn fixed_bytes(s: Seq<char>, width: nat) -> Option<Seq<u8>> {
    match byte_string(s) {
        Some(bytes) => if bytes.len() == width {
            Some(bytes)
        } else {
            None
        },
        None => None,
    }
}

/// The unsigned 64-bit number that a text denotes: an optional `+`, then one
/// or more hexadecimal digits whose value fits. `None` for any other text.
pub open spec fn number(s: Seq<char>) -> Option<u64> {
    let digits = if s.len() > 0 && s[0] == '+' {
        s.subrange(1, s.len() as int)
    } else {
        s
    };
    if digits.len() > 0 && is_hex(digits) && hex_value(digits) <= u64::MAX {
        Some(hex_value(digits) as u64)
    } else {
        None
    }
}

/// The text of the error that `alloy::hex::decode` returns for a text that
/// denotes no byte string.
pub uninterp spec fn byte_string_failure(s: Seq<char>) -> Seq<char>;

/// Reads a 20-byte address with `alloy::primitives::Address::from_str`,
/// which `str::parse` calls.
///
/// Trusted: the call succeeds exactly on an optional `0x` or `0X` followed by
/// forty hexadecimal digits of either case, and then returns the bytes those
/// digits denote. No checksum is consulted.
#[verifier::external_body]
pub(crate) fn read_address(s: &str) -> (r: Option<[u8; 20]>)
    ensures
        r matches Some(bytes) ==> fixed_bytes(s@, 20) == Some(bytes@),
        r is None ==> fixed_bytes(s@, 20) is None,
{
    match s.parse::<Address>() {
        Ok(address) => Some(address.0.0),
        Err(_) => None,
    }
}

/// Reads a 32-byte word with `alloy::primitives::B256::from_str`, which
/// `str::parse` calls.
///
/// Trusted: the call succeeds exactly on an optional `0x` or `0X` followed by
/// sixty-four hexadecimal digits of either case, and then returns the bytes
/// those digits denote.
#[verifier::external_body]
pub(crate) fn read_word(s: &str) -> (r: Option<[u8; 32]>)
    ensures
        r matches Some(bytes) ==> fixed_bytes(s@, 32) == Some(bytes@),
        r is None ==> fixed_bytes(s@, 32) is None,
{
    match s.parse::<B256>() {
        Ok(word) => Some(word.0),
        Err(_) => None,
    }
}

/// Reads a byte string with `alloy::hex::decode`.
///
/// Trusted: the call succeeds exactly on an optional `0x` or `0X` followed by
/// an even number of hexadecimal digits of either case, and then returns the
/// bytes those digits denote; on any other text it fails, and the text of its
/// error depends on the input alone.
#[verifier::external_body]
pub(crate) fn read_bytes(s: &str) -> (r: Result<Vec<u8>, String>)
    ensures
        r matches Ok(bytes) ==> byte_string(s@) == Some(bytes@),
        r matches Err(message) ==> byte_string(s@) is None && message@ == byte_string_failure(
            s@,
        ),
{
    match alloy::hex::decode(s) {
        Ok(bytes) => Ok(bytes),
        Err(error) => Err(error.to_string()),
    }
}

/// Writes a byte string with `alloy::hex::encode`.
///
/// Trusted: the result has two lower-case hexadecimal digits for each byte,
/// high digit first, and nothing else.
#[verifier::external_body]
pub(crate) fn write_bytes(bytes: &[u8]) -> (r: String)
    ensures
        r@ == digits_of_bytes(bytes@),
{
    alloy::hex::encode(bytes)
}

/// A longer run of digits denotes at least as much as any run it starts with.
pub proof fn lemma_hex_value_grows(s: Seq<char>, k: int)
    requires
        0 <= k <= s.len(),
    ensures
        hex_value(s.subrange(0, k)) <= hex_value(s),
    decreases s.len(),
{
    if k == s.len() {
        assert(s.subrange(0, k) =~= s);
    } else {
        lemma_hex_value_grows(s.drop_last(), k);
        assert(s.drop_last().subrange(0, k) =~= s.subrange(0, k));
    }
}

/// Whether the text has `0x` at position `k`.
fn has_pair_at(s: &str, k: usize, n: usize) -> (r: bool)
    requires
        n == s@.len(),
        k <= n,
    ensures
        r == (k + 2 <= n && s@[k as int] == '0' && s@[k + 1] == 'x'),
{
    if n - k < 2 {
        return false;
    }
    s.get_char(k) == '0' && s.get_char(k + 1) == 'x'
}

/// The text without any of its leading `0x` pairs.
pub fn trim_prefixes(s: &str) -> (r: &str)
    ensures
        r@ == without_prefixes(s@),
{
    let n = s.unicode_len();
    let mut k: usize = 0;
    assert(s@.subrange(0, n as int) =~= s@);
    while has_pair_at(s, k, n)
        invariant
            n == s@.len(),
            k <= n,
            without_prefixes(s@) == without_prefixes(s@.subrange(k as int, n as int)),
        decreases n - k,
    {
        assert(s@.subrange(k as int, n as int).subrange(2, n - k) =~= s@.subrange(
            k + 2,
            n as int,
        ));
        k += 2;
    }
    s.substring_char(k, n)
}

/// The ASCII code of `0`.
const DIGIT_0: u8 = 48;

/// The ASCII code of `9`.
const DIGIT_9: u8 = 57;

/// The ASCII code of `A`.
const UPPER_A: u8 = 65;

/// The ASCII code of `F`.
const UPPER_F: u8 = 70;

/// The ASCII code of `a`.
const LOWER_A: u8 = 97;

/// The ASCII code of `f`.
const LOWER_F: u8 = 102;

/// The ASCII code of `+`.
const PLUS: u8 = 43;

/// The value of an ASCII hexadecimal digit.
fn digit_of(b: u8) -> (r: Option<u8>)
    ensures
        r == digit_value(b as char),
        r matches Some(d) ==> d < 16,
{
    if b >= DIGIT_0 && b <= DIGIT_9 {
        Some(b - DIGIT_0)
    } else if b >= LOWER_A && b <= LOWER_F {
        Some(b - LOWER_A + 10)
    } else if b >= UPPER_A && b <= UPPER_F {
        Some(b - UPPER_A + 10)
    } else {
        None
    }
}

/// Reads an unsigned 64-bit number: an optional `+`, then one or more
/// hexadecimal digits. A value that does not fit is no number.
pub fn read_number(s: &str) -> (r: Option<u64>)
    ensures
        r == number(s@),
{
    if !s.is_ascii() {
        proof {
            let i = choose|i: int| 0 <= i < s@.len() && !('\0' <= #[trigger] s@[i] <= '\u{7f}');
            assert(digit_value(s@[i]) is None);
            if s@[0] == '+' {
                assert(s@.subrange(1, s@.len() as int)[i - 1] == s@[i]);
            }
        }
        return None;
    }
    let n = s.unicode_len();
    let start: usize = if n > 0 && s.get_ascii(0) == PLUS {
        1
    } else {
        0
    };
    if start == n {
        return None;
    }
    let ghost digits = s@.subrange(start as int, n as int);
    let mut acc: u64 = 0;
    let mut i: usize = start;
    while i < n
        invariant
            s.is_ascii(),
            n == s@.len(),
            start <= i <= n,
            start < n,
            digits == s@.subrange(start as int, n as int),
            digits == if s@.len() > 0 && s@[0] == '+' {
                s@.subrange(1, s@.len() as int)
            } else {
                s@
            },
            is_hex(digits.subrange(0, i - start)),
            acc == hex_value(digits.subrange(0, i - start)),
        decreases n - i,
    {
        let b = s.get_ascii(i);
        let ghost seen = digits.subrange(0, i - start);
        let ghost next = digits.subrange(0, i - start + 1);
        proof {
            assert(next.drop_last() =~= seen);
            assert(next.last() == digits[i - start]);
        }
        match digit_of(b) {
            None => {
                return None;
            },
            Some(d) => {
                if acc > (u64::MAX - d as u64) / 16 {
                    proof {
                        lemma_hex_value_grows(digits, i - start + 1);
                    }
                    return None;
                }
                acc = acc * 16 + d as u64;
                proof {
                    assert forall|j: int| 0 <= j < next.len() implies (#[trigger] digit_value(
                        next[j],
                    )) is Some by {
                        if j < seen.len() {
                            assert(next[j] == seen[j]);
                        }
                    }
                }
            },
        }
        i += 1;
    }
    assert(digits.subrange(0, n - start) =~= digits);
    Some(acc)
}

/// The number that a byte string denotes, most significant byte first.
pub open spec fn be_value(bytes: Seq<u8>) -> nat
    decreases bytes.len(),
{
    if bytes.len() == 0 {
        0
    } else {
        256 * be_value(bytes.drop_last()) + bytes.last() as nat
    }
}

/// How many `0` digits the text starts with.
pub open spec fn leading_zeros(s: Seq<char>) -> nat
    decreases s.len(),
{
    if s.len() > 0 && s[0] == '0' {
        1 + leading_zeros(s.drop_first())
    } else {
        0
    }
}

/// The digits of a number given by its bytes, without leading zeros; a
/// single `0` for the number zero.
pub open spec fn minimal_digits(bytes: Seq<u8>) -> Seq<char> {
    let all = digits_of_bytes(bytes);
    let k = leading_zeros(all);
    if k >= all.len() {
        seq!['0']
    } else {
        all.subrange(k as int, all.len() as int)
    }
}

/// The wire form of a number: `0x`, then its digits without leading zeros.
pub open spec fn quantity(bytes: Seq<u8>) -> Seq<char> {
    "0x"@ + minimal_digits(bytes)
}

/// The wire form of a byte string: `0x`, then two digits for each byte.
pub open spec fn data(bytes: Seq<u8>) -> Seq<char> {
    "0x"@ + digits_of_bytes(bytes)
}

/// A text whose first `k` characters are `0`, and whose next is not, starts
/// with exactly `k` zeros.
pub proof fn lemma_leading_zeros(s: Seq<char>, k: int)
    requires
        0 <= k <= s.len(),
        forall|j: int| 0 <= j < k ==> s[j] == '0',
        k < s.len() ==> s[k] != '0',
    ensures
        leading_zeros(s) == k,
    decreases k,
{
    if k > 0 {
        lemma_leading_zeros(s.drop_first(), k - 1);
    }
}

/// Writes a byte string: `0x`, then two lower-case digits for each byte.
pub fn write_data(bytes: &[u8]) -> (r: String)
    ensures
        r@ == data(bytes@),
{
    let digits = write_bytes(bytes);
    String::from_str("0x").concat(digits.as_str())
}

/// Writes a number given by its bytes, most significant first: `0x`, then
/// its lower-case digits without leading zeros, `0x0` for zero.
pub fn write_quantity(bytes: &[u8]) -> (r: String)
    ensures
        r@ == quantity(bytes@),
{
    let all = write_bytes(bytes);
    let n = all.as_str().unicode_len();
    let mut k: usize = 0;
    while k < n && all.as_str().get_char(k) == '0'
        invariant
            n == all@.len(),
            k <= n,
            forall|j: int| 0 <= j < k ==> all@[j] == '0',
        decreases n - k,
    {
        k += 1;
    }
    proof {
        lemma_leading_zeros(all@, k as int);
    }
    if k == n {
        proof {
            reveal_strlit("0x");
            reveal_strlit("0x0");
        }
        "0x0".to_owned()
    } else {
        String::from_str("0x").concat(all.as_str().substring_char(k, n))
    }
}

} // verus!
