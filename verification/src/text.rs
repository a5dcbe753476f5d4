//! Decimal text of integers: writing it and reading it back.

use vstd::prelude::*;
use vstd::string::*;
use vstd::utf8::*;

verus! {

/// The character that writes the digit `d`.
pub open spec fn digit_char(d: int) -> char
    recommends
        0 <= d < 10,
{
    if d == 0 {
        '0'
    } else if d == 1 {
        '1'
    } else if d == 2 {
        '2'
    } else if d == 3 {
        '3'
    } else if d == 4 {
        '4'
    } else if d == 5 {
        '5'
    } else if d == 6 {
        '6'
    } else if d == 7 {
        '7'
    } else if d == 8 {
        '8'
    } else {
        '9'
    }
}

/// The decimal text of a natural number, without leading zeros.
pub open spec fn nat_text(n: nat) -> Seq<char>
    decreases n,
{
    if n < 10 {
        seq![digit_char(n as int)]
    } else {
        nat_text(n / 10).push(digit_char((n % 10) as int))
    }
}

/// The decimal text of an integer: a minus sign before a negative number.
pub open spec fn int_text(i: int) -> Seq<char> {
    if i < 0 {
        seq!['-'] + nat_text((-i) as nat)
    } else {
        nat_text(i as nat)
    }
}

fn digit_str(d: u64) -> (r: &'static str)
    requires
        d < 10,
    ensures
        r@ == seq![digit_char(d as int)],
{
    proof {
        reveal_strlit("0");
        reveal_strlit("1");
        reveal_strlit("2");
        reveal_strlit("3");
        reveal_strlit("4");
        reveal_strlit("5");
        reveal_strlit("6");
        reveal_strlit("7");
        reveal_strlit("8");
        reveal_strlit("9");
    }
    let r = if d == 0 {
        "0"
    } else if d == 1 {
        "1"
    } else if d == 2 {
        "2"
    } else if d == 3 {
        "3"
    } else if d == 4 {
        "4"
    } else if d == 5 {
        "5"
    } else if d == 6 {
        "6"
    } else if d == 7 {
        "7"
    } else if d == 8 {
        "8"
    } else {
        "9"
    };
    assert(r@ =~= seq![digit_char(d as int)]);
    r
}

/// Writes `n` in decimal.
pub fn u64_to_text(n: u64) -> (r: String)
    ensures
        r@ == nat_text(n as nat),
    decreases n,
{
    if n < 10 {
        String::from_str(digit_str(n))
    } else {
        let mut s = u64_to_text(n / 10);
        s.append(digit_str(n % 10));
        assert(s@ =~= nat_text((n / 10) as nat).push(digit_char((n % 10) as int)));
        s
    }
}

/// Writes `n` in decimal, with a minus sign if it is negative.
pub fn i64_to_text(n: i64) -> (r: String)
    ensures
        r@ == int_text(n as int),
{
    if n < 0 {
        let magnitude: u64 = ((-(n + 1)) as u64) + 1;
        let digits = u64_to_text(magnitude);
        let mut s = String::from_str("-");
        s.append(digits.as_str());
        proof {
            reveal_strlit("-");
            assert(s@ =~= seq!['-'] + nat_text((-(n as int)) as nat));
        }
        s
    } else {
        u64_to_text(n as u64)
    }
}

/// True for the bytes `0` to `9` of ASCII.
pub open spec fn is_digit(b: u8) -> bool {
    48 <= b && b <= 57
}

/// True when every byte of `s` is a digit.
pub open spec fn all_digits(s: Seq<u8>) -> bool {
    forall|i: int| 0 <= i < s.len() ==> is_digit(#[trigger] s[i])
}

/// The number that a run of digits writes; leading zeros count for nothing.
pub open spec fn digits_value(s: Seq<u8>) -> nat
    decreases s.len(),
{
    if s.len() == 0 {
        0
    } else {
        digits_value(s.drop_last()) * 10 + (if is_digit(s.last()) {
            (s.last() - 48) as nat
        } else {
            0
        })
    }
}

/// What is left of `s` after one leading plus sign, if there is one.
pub open spec fn unsigned_body(s: Seq<u8>) -> Seq<u8> {
    if s.len() > 0 && s[0] == 43 {
        s.skip(1)
    } else {
        s
    }
}

/// What is left of `s` after one leading sign, plus or minus, if there is one.
pub open spec fn signed_body(s: Seq<u8>) -> Seq<u8> {
    if s.len() > 0 && (s[0] == 43 || s[0] == 45) {
        s.skip(1)
    } else {
        s
    }
}

/// True when `s` begins with a minus sign.
pub open spec fn is_negative(s: Seq<u8>) -> bool {
    s.len() > 0 && s[0] == 45
}

/// The unsigned number that the text `s` writes: an optional plus sign, then
/// one digit or more, the whole no larger than the largest `u64`.
pub open spec fn parse_u64_text(s: Seq<u8>) -> Option<u64> {
    let body = unsigned_body(s);
    if body.len() > 0 && all_digits(body) && digits_value(body) <= u64::MAX {
        Some(digits_value(body) as u64)
    } else {
        None
    }
}

/// The signed number that the text `s` writes: an optional sign, then one
/// digit or more, the whole within the range of `i64`.
pub open spec fn parse_i64_text(s: Seq<u8>) -> Option<i64> {
    let body = signed_body(s);
    let value: int = if is_negative(s) {
        -(digits_value(body) as int)
    } else {
        digits_value(body) as int
    };
    if body.len() > 0 && all_digits(body) && i64::MIN <= value <= i64::MAX {
        Some(value as i64)
    } else {
        None
    }
}

/// A run of digits is worth at least as much as any of its prefixes.
pub proof fn lemma_digits_value_prefix(s: Seq<u8>, k: int)
    requires
        0 <= k <= s.len(),
    ensures
        digits_value(s.take(k)) <= digits_value(s),
    decreases s.len(),
{
    if k == s.len() {
        assert(s.take(k) =~= s);
    } else {
        assert(s.drop_last().take(k) =~= s.take(k));
        lemma_digits_value_prefix(s.drop_last(), k);
    }
}

/// Reads the digits of `bytes` from `start` to the end.
fn parse_digits(bytes: &[u8], start: usize) -> (r: Option<u64>)
    requires
        start <= bytes@.len(),
    ensures
        r == (if bytes@.skip(start as int).len() > 0 && all_digits(bytes@.skip(start as int))
            && digits_value(bytes@.skip(start as int)) <= u64::MAX {
            Some(digits_value(bytes@.skip(start as int)) as u64)
        } else {
            None::<u64>
        }),
{
    let ghost body = bytes@.skip(start as int);
    if start == bytes.len() {
        return None;
    }
    let mut acc: u64 = 0;
    let mut i: usize = start;
    while i < bytes.len()
        invariant
            start <= i <= bytes@.len(),
            body == bytes@.skip(start as int),
            all_digits(body.take(i - start)),
            acc == digits_value(body.take(i - start)),
        decreases bytes@.len() - i,
    {
        let b: u8 = bytes[i];
        assert(body[i - start] == b);
        if b < 48 || b > 57 {
            return None;
        }
        let d: u64 = (b - 48) as u64;
        proof {
            assert(body.take(i - start + 1).drop_last() =~= body.take(i - start));
            assert(body.take(i - start + 1).last() == b);
        }
        if acc > (u64::MAX - d) / 10 {
            proof {
                lemma_digits_value_prefix(body, i - start + 1);
            }
            return None;
        }
        acc = acc * 10 + d;
        i = i + 1;
    }
    assert(body.take(i - start) =~= body);
    Some(acc)
}

/// Reads an unsigned decimal number.
pub fn parse_u64(bytes: &[u8]) -> (r: Option<u64>)
    ensures
        r == parse_u64_text(bytes@),
{
    if bytes.len() > 0 && bytes[0] == 43 {
        parse_digits(bytes, 1)
    } else {
        assert(bytes@.skip(0) =~= bytes@);
        parse_digits(bytes, 0)
    }
}

/// Reads a signed decimal number.
pub fn parse_i64(bytes: &[u8]) -> (r: Option<i64>)
    ensures
        r == parse_i64_text(bytes@),
{
    let negative = bytes.len() > 0 && bytes[0] == 45;
    let signed = bytes.len() > 0 && (bytes[0] == 43 || bytes[0] == 45);
    let start: usize = if signed { 1 } else { 0 };
    proof {
        assert(bytes@.skip(0) =~= bytes@);
    }
    match parse_digits(bytes, start) {
        None => None,
        Some(magnitude) => {
            if negative {
                if magnitude > 9223372036854775808u64 {
                    None
                } else if magnitude == 9223372036854775808u64 {
                    Some(i64::MIN)
                } else {
                    Some(-(magnitude as i64))
                }
            } else if magnitude > 9223372036854775807u64 {
                None
            } else {
                Some(magnitude as i64)
            }
        },
    }
}

/// The bytes of a text of ASCII characters: one byte for each character.
pub open spec fn ascii_bytes(text: Seq<char>) -> Seq<u8> {
    Seq::new(text.len(), |i: int| text[i] as u8)
}

/// The decimal text of a natural number is made of digits, is not empty,
/// and writes that number.
pub proof fn lemma_nat_text_digits(n: nat)
    ensures
        nat_text(n).len() > 0,
        is_ascii_chars(nat_text(n)),
        all_digits(ascii_bytes(nat_text(n))),
        digits_value(ascii_bytes(nat_text(n))) == n,
    decreases n,
{
    if n < 10 {
        let bytes = ascii_bytes(nat_text(n));
        assert(bytes.len() == 1);
        assert(bytes.drop_last() =~= Seq::<u8>::empty());
        assert(bytes.last() == 48 + n);
        assert(digits_value(bytes.drop_last()) == 0);
    } else {
        lemma_nat_text_digits(n / 10);
        let head = nat_text(n / 10);
        let last = digit_char((n % 10) as int);
        let bytes = ascii_bytes(nat_text(n));
        assert(bytes.drop_last() =~= ascii_bytes(head));
        assert(bytes.last() == 48 + n % 10);
        assert forall|i: int| 0 <= i < bytes.len() implies is_digit(#[trigger] bytes[i]) by {
            if i < head.len() {
                assert(bytes[i] == ascii_bytes(head)[i]);
            }
        }
    }
}

/// The decimal text of an integer is made of ASCII characters, so that its
/// UTF-8 encoding has one byte for each of them.
pub proof fn lemma_int_text_bytes(i: int)
    ensures
        is_ascii_chars(int_text(i)),
        encode_utf8(int_text(i)) == ascii_bytes(int_text(i)),
        valid_utf8(encode_utf8(int_text(i))),
{
    if i < 0 {
        lemma_nat_text_digits((-i) as nat);
    } else {
        lemma_nat_text_digits(i as nat);
    }
    is_ascii_chars_encode_utf8(int_text(i));
    assert(encode_utf8(int_text(i)) =~= ascii_bytes(int_text(i)));
    encode_utf8_valid_utf8(int_text(i));
}

/// Reading the decimal text of a signed number gives the number back.
pub proof fn lemma_parse_int_text(n: i64)
    ensures
        parse_i64_text(encode_utf8(int_text(n as int))) == Some(n),
{
    lemma_int_text_bytes(n as int);
    let bytes = ascii_bytes(int_text(n as int));
    if n < 0 {
        let magnitude = (-(n as int)) as nat;
        lemma_nat_text_digits(magnitude);
        assert(bytes[0] == 45);
        assert(signed_body(bytes) =~= ascii_bytes(nat_text(magnitude)));
    } else {
        lemma_nat_text_digits(n as nat);
        assert(is_digit(bytes[0]));
        assert(signed_body(bytes) == bytes);
    }
}

/// Reading the decimal text of an unsigned number gives the number back.
pub proof fn lemma_parse_nat_text(n: u64)
    ensures
        parse_u64_text(encode_utf8(nat_text(n as nat))) == Some(n),
{
    lemma_int_text_bytes(n as int);
    lemma_nat_text_digits(n as nat);
    let bytes = ascii_bytes(nat_text(n as nat));
    assert(is_digit(bytes[0]));
    assert(unsigned_body(bytes) == bytes);
}

/// Bytes that write a signed number are all ASCII, and so are text.
pub proof fn lemma_number_is_text(s: Seq<u8>)
    requires
        parse_i64_text(s) is Some,
    ensures
        valid_utf8(s),
{
    let body = signed_body(s);
    let chars = Seq::new(s.len(), |i: int| s[i] as char);
    assert forall|i: int| 0 <= i < s.len() implies s[i] < 128 by {
        if body.len() == s.len() {
            assert(is_digit(body[i]));
        } else if i > 0 {
            assert(body[i - 1] == s[i]);
            assert(is_digit(body[i - 1]));
        }
    }
    assert(is_ascii_chars(chars));
    is_ascii_chars_encode_utf8(chars);
    assert(encode_utf8(chars) =~= s);
    encode_utf8_valid_utf8(chars);
}

} // verus!
