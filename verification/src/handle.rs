//! Statement handles of the driver-managed backend: a running number,
//! written as eight bytes, least significant first.

use vstd::prelude::*;

verus! {

/// The eight bytes that stand for the number `n`, least significant first.
pub open spec fn handle_bytes(n: u64) -> Seq<u8> {
    seq![
        (n % 256) as u8,
        (n / 256 % 256) as u8,
        (n / 65536 % 256) as u8,
        (n / 16777216 % 256) as u8,
        (n / 4294967296 % 256) as u8,
        (n / 1099511627776 % 256) as u8,
        (n / 281474976710656 % 256) as u8,
        (n / 72057594037927936 % 256) as u8,
    ]
}

/// The number that eight bytes stand for, least significant first.
pub open spec fn handle_value(s: Seq<u8>) -> int
    recommends
        s.len() == 8,
{
    s[0] + 256 * s[1] + 65536 * s[2] + 16777216 * s[3] + 4294967296 * s[4] + 1099511627776
        * s[5] + 281474976710656 * s[6] + 72057594037927936 * s[7]
}

/// Reading back what was written gives the number that was written.
pub proof fn lemma_handle_round_trip(n: u64)
    ensures
        handle_bytes(n).len() == 8,
        handle_value(handle_bytes(n)) == n,
{
    let a: int = n as int;
    let q1 = a / 256;
    let q2 = q1 / 256;
    let q3 = q2 / 256;
    let q4 = q3 / 256;
    let q5 = q4 / 256;
    let q6 = q5 / 256;
    let q7 = q6 / 256;
    assert(q2 == a / 65536);
    assert(q3 == a / 16777216);
    assert(q4 == a / 4294967296);
    assert(q5 == a / 1099511627776);
    assert(q6 == a / 281474976710656);
    assert(q7 == a / 72057594037927936);
    assert(q7 < 256);
}

/// Eight bytes are the writing of the number that they stand for, and of no
/// other.
pub proof fn lemma_handle_bytes_of_value(s: Seq<u8>)
    requires
        s.len() == 8,
    ensures
        0 <= handle_value(s) <= u64::MAX,
        handle_bytes(handle_value(s) as u64) == s,
{
    let a: int = handle_value(s);
    let q1 = a / 256;
    let q2 = q1 / 256;
    let q3 = q2 / 256;
    let q4 = q3 / 256;
    let q5 = q4 / 256;
    let q6 = q5 / 256;
    let q7 = q6 / 256;
    assert(q1 == s[1] + 256 * s[2] + 65536 * s[3] + 16777216 * s[4] + 4294967296 * s[5]
        + 1099511627776 * s[6] + 281474976710656 * s[7]);
    assert(q2 == s[2] + 256 * s[3] + 65536 * s[4] + 16777216 * s[5] + 4294967296 * s[6]
        + 1099511627776 * s[7]);
    assert(q3 == s[3] + 256 * s[4] + 65536 * s[5] + 16777216 * s[6] + 4294967296 * s[7]);
    assert(q4 == s[4] + 256 * s[5] + 65536 * s[6] + 16777216 * s[7]);
    assert(q5 == s[5] + 256 * s[6] + 65536 * s[7]);
    assert(q6 == s[6] + 256 * s[7]);
    assert(q7 == s[7]);
    assert(q2 == a / 65536);
    assert(q3 == a / 16777216);
    assert(q4 == a / 4294967296);
    assert(q5 == a / 1099511627776);
    assert(q6 == a / 281474976710656);
    assert(q7 == a / 72057594037927936);
    assert(handle_bytes(a as u64) =~= s);
}

/// Two different numbers are never written alike.
pub proof fn lemma_handle_bytes_injective(a: u64, b: u64)
    requires
        handle_bytes(a) == handle_bytes(b),
    ensures
        a == b,
{
    lemma_handle_round_trip(a);
    lemma_handle_round_trip(b);
}

/// Writes the number `n` as a handle.
pub fn encode_handle(n: u64) -> (r: Vec<u8>)
    ensures
        r@ == handle_bytes(n),
{
    let mut out: Vec<u8> = Vec::new();
    out.push((n % 256) as u8);
    out.push((n / 256 % 256) as u8);
    out.push((n / 65536 % 256) as u8);
    out.push((n / 16777216 % 256) as u8);
    out.push((n / 4294967296 % 256) as u8);
    out.push((n / 1099511627776 % 256) as u8);
    out.push((n / 281474976710656 % 256) as u8);
    out.push((n / 72057594037927936 % 256) as u8);
    assert(out@ =~= handle_bytes(n));
    out
}

/// Reads the number of a handle. A handle has eight bytes, no more and no
/// fewer.
pub fn decode_handle(handle: &[u8]) -> (r: Option<u64>)
    ensures
        r is Some <==> handle@.len() == 8,
        r is Some ==> r.unwrap() == handle_value(handle@),
{
    if handle.len() != 8 {
        return None;
    }
    let b0: u64 = handle[0] as u64;
    let b1: u64 = handle[1] as u64;
    let b2: u64 = handle[2] as u64;
    let b3: u64 = handle[3] as u64;
    let b4: u64 = handle[4] as u64;
    let b5: u64 = handle[5] as u64;
    let b6: u64 = handle[6] as u64;
    let b7: u64 = handle[7] as u64;
    Some(
        b0 + 256 * b1 + 65536 * b2 + 16777216 * b3 + 4294967296 * b4 + 1099511627776 * b5
            + 281474976710656 * b6 + 72057594037927936 * b7,
    )
}

} // verus!
