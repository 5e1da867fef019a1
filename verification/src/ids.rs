//! Identifier generation: random 128-bit trace ids and 64-bit span ids,
//! hex-encoded in lowercase with no separators.  Collision resistance comes
//! from the random source; the encoding itself is pinned exactly.

use rand::Rng;
use vstd::prelude::*;

verus! {

/// The lowercase hex digit character for a value below sixteen.
pub open spec fn hex_digit(d: int) -> char {
    if d == 0 {
        '0'
    } else if d == 1 {
        '1'
    } else if d == 2 {
        '2'
    } else if d == 3 {
        '3'
    } else if d == 4 {
        '4'
    } else if d == 5 {
        '5'
    } else if d == 6 {
        '6'
    } else if d == 7 {
        '7'
    } else if d == 8 {
        '8'
    } else if d == 9 {
        '9'
    } else if d == 10 {
        'a'
    } else if d == 11 {
        'b'
    } else if d == 12 {
        'c'
    } else if d == 13 {
        'd'
    } else if d == 14 {
        'e'
    } else {
        'f'
    }
}

/// The lowercase hex rendering of a byte sequence: for each byte the digit
/// of its high nibble, then the digit of its low nibble.
pub open spec fn hex_str_of(b: Seq<u8>) -> Seq<char> {
    Seq::new(
        b.len() * 2,
        |i: int|
            if i % 2 == 0 {
                hex_digit(b[i / 2] as int / 16)
            } else {
                hex_digit(b[i / 2] as int % 16)
            },
    )
}

/// A lowercase hex digit character.
pub open spec fn is_hex_char(c: char) -> bool {
    ('0' <= c && c <= '9') || ('a' <= c && c <= 'f')
}

/// A string of exactly `n` lowercase hex digit characters.
pub open spec fn is_hex_id(s: Seq<char>, n: nat) -> bool {
    s.len() == n && forall|i: int| 0 <= i < s.len() ==> is_hex_char(#[trigger] s[i])
}

proof fn lemma_hex_str_chars(b: Seq<u8>)
    ensures
        is_hex_id(hex_str_of(b), b.len() * 2),
{
    assert forall|i: int| 0 <= i < hex_str_of(b).len() implies is_hex_char(
        #[trigger] hex_str_of(b)[i],
    ) by {
        let byte = b[i / 2] as int;
        assert(0 <= byte < 256);
        assert(0 <= byte / 16 < 16);
        assert(0 <= byte % 16 < 16);
    }
}

/// Relies on rand::thread_rng and rand::Rng::fill: fills a fresh buffer with
/// uniformly random bytes.  The values depend on the random source, so only
/// the length is stated.
#[verifier::external_body]
fn random_bytes(n: usize) -> (r: Vec<u8>)
    ensures
        r@.len() == n,
{
    let mut buf = vec![0u8; n];
    rand::thread_rng().fill(buf.as_mut_slice());
    buf
}

/// Relies on hex::encode: renders each byte as two lowercase hex digits,
/// high nibble first.
#[verifier::external_body]
fn hex_encode(bytes: &Vec<u8>) -> (r: String)
    ensures
        r@ == hex_str_of(bytes@),
{
    hex::encode(bytes.as_slice())
}

/// Mints a random 128-bit trace id: 32 lowercase hex characters.
pub fn generate_trace_id() -> (r: String)
    ensures
        is_hex_id(r@, 32),
{
    let bytes = random_bytes(16);
    let s = hex_encode(&bytes);
    proof {
        lemma_hex_str_chars(bytes@);
    }
    s
}

/// Mints a random 64-bit span id: 16 lowercase hex characters.
pub fn generate_span_id() -> (r: String)
    ensures
        is_hex_id(r@, 16),
{
    let bytes = random_bytes(8);
    let s = hex_encode(&bytes);
    proof {
        lemma_hex_str_chars(bytes@);
    }
    s
}

} // verus!
