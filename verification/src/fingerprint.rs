//! Fingerprint engine: a deterministic, URL-safe token derived from a message.
//!
//! The token is built by hashing the message bytes with the standard
//! library's 64-bit `DefaultHasher`, taking the digest's eight big-endian
//! bytes, and encoding them with the URL-safe base64 alphabet without
//! padding, which yields exactly eleven characters.

use vstd::prelude::*;
use vstd::std_specs::hash::DefaultHasherAdditionalSpecFns;
use vstd::utf8::encode_utf8;
use std::collections::hash_map::DefaultHasher;
use core::hash::Hasher;
use base64::Engine;

verus! {

/// The 64 characters of the URL-safe base64 alphabet (RFC 4648, section 5).
pub open spec fn b64url_alphabet() -> Seq<char> {
    seq![
        'A', 'B', 'C', 'D', 'E', 'F', 'G', 'H', 'I', 'J', 'K', 'L', 'M',
        'N', 'O', 'P', 'Q', 'R', 'S', 'T', 'U', 'V', 'W', 'X', 'Y', 'Z',
        'a', 'b', 'c', 'd', 'e', 'f', 'g', 'h', 'i', 'j', 'k', 'l', 'm',
        'n', 'o', 'p', 'q', 'r', 's', 't', 'u', 'v', 'w', 'x', 'y', 'z',
        '0', '1', '2', '3', '4', '5', '6', '7', '8', '9', '-', '_',
    ]
}

/// The alphabet character for a six-bit value.
pub open spec fn b64url_char(v: int) -> char {
    b64url_alphabet()[v]
}

/// True for exactly the characters of the URL-safe base64 alphabet.
pub open spec fn is_b64url_char(c: char) -> bool {
    exists|k: int| 0 <= k < 64 && b64url_alphabet()[k] == c
}

/// URL-safe base64 encoding without padding (RFC 4648, sections 4 and 5):
/// each group of three bytes becomes four alphabet characters; a final
/// group of one or two bytes becomes two or three characters.
pub open spec fn b64url_encode(b: Seq<u8>) -> Seq<char>
    decreases b.len(),
{
    if b.len() >= 3 {
        seq![
            b64url_char((b[0] >> 2) as int),
            b64url_char((((b[0] & 0x03) << 4) | (b[1] >> 4)) as int),
            b64url_char((((b[1] & 0x0f) << 2) | (b[2] >> 6)) as int),
            b64url_char((b[2] & 0x3f) as int),
        ] + b64url_encode(b.skip(3))
    } else if b.len() == 2 {
        seq![
            b64url_char((b[0] >> 2) as int),
            b64url_char((((b[0] & 0x03) << 4) | (b[1] >> 4)) as int),
            b64url_char(((b[1] & 0x0f) << 2) as int),
        ]
    } else if b.len() == 1 {
        seq![
            b64url_char((b[0] >> 2) as int),
            b64url_char(((b[0] & 0x03) << 4) as int),
        ]
    } else {
        Seq::empty()
    }
}

/// The length of the encoding of `n` bytes.
pub open spec fn b64url_len(n: int) -> int {
    (n / 3) * 4 + if n % 3 == 0 { 0int } else { n % 3 + 1 }
}

pub proof fn lemma_b64url_encode_len(b: Seq<u8>)
    ensures
        b64url_encode(b).len() == b64url_len(b.len() as int),
    decreases b.len(),
{
    if b.len() >= 3 {
        lemma_b64url_encode_len(b.skip(3));
        let n = b.len() as int;
        assert(n / 3 == 1 + (n - 3) / 3) by (nonlinear_arith)
            requires n >= 3;
        assert(n % 3 == (n - 3) % 3) by (nonlinear_arith)
            requires n >= 3;
    }
}

pub proof fn lemma_b64url_encode_alphabet(b: Seq<u8>)
    ensures
        forall|i: int|
            0 <= i < b64url_encode(b).len() ==> is_b64url_char(b64url_encode(b)[i]),
    decreases b.len(),
{
    if b.len() >= 3 {
        lemma_b64url_encode_alphabet(b.skip(3));
        let x: u8 = b[0];
        let y: u8 = b[1];
        let z: u8 = b[2];
        assert((x >> 2) < 64) by (bit_vector);
        assert((((x & 0x03) << 4) | (y >> 4)) < 64) by (bit_vector);
        assert((((y & 0x0f) << 2) | (z >> 6)) < 64) by (bit_vector);
        assert((z & 0x3f) < 64) by (bit_vector);
        assert forall|i: int|
            0 <= i < b64url_encode(b).len() implies is_b64url_char(b64url_encode(b)[i]) by {
            if i >= 4 {
                assert(b64url_encode(b)[i] == b64url_encode(b.skip(3))[i - 4]);
            }
        }
    } else if b.len() == 2 {
        let x: u8 = b[0];
        let y: u8 = b[1];
        assert((x >> 2) < 64) by (bit_vector);
        assert((((x & 0x03) << 4) | (y >> 4)) < 64) by (bit_vector);
        assert(((y & 0x0f) << 2) < 64) by (bit_vector);
    } else if b.len() == 1 {
        let x: u8 = b[0];
        assert((x >> 2) < 64) by (bit_vector);
        assert(((x & 0x03) << 4) < 64) by (bit_vector);
    }
}

/// The eight bytes of a 64-bit value, most significant first.
pub open spec fn u64_be_bytes(x: u64) -> Seq<u8> {
    seq![
        ((x >> 56) & 0xff) as u8,
        ((x >> 48) & 0xff) as u8,
        ((x >> 40) & 0xff) as u8,
        ((x >> 32) & 0xff) as u8,
        ((x >> 24) & 0xff) as u8,
        ((x >> 16) & 0xff) as u8,
        ((x >> 8) & 0xff) as u8,
        (x & 0xff) as u8,
    ]
}

fn u64_to_be_bytes(x: u64) -> (r: Vec<u8>)
    ensures
        r@ == u64_be_bytes(x),
{
    proof {
        assert(((x >> 56) & 0xff) < 256) by (bit_vector);
        assert(((x >> 48) & 0xff) < 256) by (bit_vector);
        assert(((x >> 40) & 0xff) < 256) by (bit_vector);
        assert(((x >> 32) & 0xff) < 256) by (bit_vector);
        assert(((x >> 24) & 0xff) < 256) by (bit_vector);
        assert(((x >> 16) & 0xff) < 256) by (bit_vector);
        assert(((x >> 8) & 0xff) < 256) by (bit_vector);
        assert((x & 0xff) < 256) by (bit_vector);
    }
    let mut r: Vec<u8> = Vec::new();
    r.push(((x >> 56) & 0xff) as u8);
    r.push(((x >> 48) & 0xff) as u8);
    r.push(((x >> 40) & 0xff) as u8);
    r.push(((x >> 32) & 0xff) as u8);
    r.push(((x >> 24) & 0xff) as u8);
    r.push(((x >> 16) & 0xff) as u8);
    r.push(((x >> 8) & 0xff) as u8);
    r.push((x & 0xff) as u8);
    proof {
        assert(r@ =~= u64_be_bytes(x));
    }
    r
}

/// Relies on base64's `Engine::encode` with the `URL_SAFE_NO_PAD` engine,
/// which produces the RFC 4648 URL-safe base64 encoding of the input,
/// without padding.
#[verifier::external_body]
fn b64url_encode_bytes(bytes: &[u8]) -> (r: String)
    ensures
        r@ == b64url_encode(bytes@),
{
    base64::engine::general_purpose::URL_SAFE_NO_PAD.encode(bytes)
}

/// The fingerprint of a message, as a function of its characters: the
/// URL-safe base64 form of the eight big-endian digest bytes of the
/// message's UTF-8 bytes under the standard library's `DefaultHasher`.
pub open spec fn fingerprint_of(s: Seq<char>) -> Seq<char> {
    b64url_encode(u64_be_bytes(DefaultHasher::spec_finish(seq![encode_utf8(s)])))
}

/// Equal messages yield equal fingerprints, whatever process computes
/// them: the fingerprint is a function of the message's characters alone.
pub proof fn lemma_fingerprint_deterministic(s1: Seq<char>, s2: Seq<char>)
    requires
        s1 == s2,
    ensures
        fingerprint_of(s1) == fingerprint_of(s2),
{
}

/// Every fingerprint is eleven characters, all from the URL-safe
/// base64 alphabet.
pub proof fn lemma_fingerprint_shape(s: Seq<char>)
    ensures
        fingerprint_of(s).len() == 11,
        forall|i: int| 0 <= i < 11 ==> is_b64url_char(fingerprint_of(s)[i]),
{
    let digest = u64_be_bytes(DefaultHasher::spec_finish(seq![encode_utf8(s)]));
    lemma_b64url_encode_len(digest);
    lemma_b64url_encode_alphabet(digest);
}

/// Computes the fingerprint of a message: hash the UTF-8 bytes with
/// `DefaultHasher`, then encode the digest's eight big-endian bytes
/// with the URL-safe base64 alphabet, no padding.
pub fn fingerprint(msg: &str) -> (r: String)
    ensures
        r@ == fingerprint_of(msg@),
        r@.len() == 11,
{
    let mut hasher = DefaultHasher::new();
    hasher.write(msg.as_bytes());
    let h: u64 = hasher.finish();
    proof {
        assert(hasher@ =~= seq![encode_utf8(msg@)]);
    }
    let bytes = u64_to_be_bytes(h);
    let r = b64url_encode_bytes(bytes.as_slice());
    proof {
        lemma_fingerprint_shape(msg@);
    }
    r
}

} // verus!
