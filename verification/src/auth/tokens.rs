//! Opaque refresh tokens (32 random bytes, hex) and their SHA-256 digests,
//! which are what gets stored.
use vstd::prelude::*;

use sha2::{Digest, Sha256};
use rand::RngCore;
use vstd::utf8::encode_utf8;

verus! {

/// SHA-256 of a byte sequence.
pub uninterp spec fn spec_sha256(data: Seq<u8>) -> Seq<u8>;

/// `Sha256::digest`: the 32-byte SHA-256 digest of `data`. Named: `spec_sha256`.
#[verifier::external_body]
fn sha256_digest(data: &[u8]) -> (r: Vec<u8>)
    ensures
        r@ == spec_sha256(data@),
        r@.len() == 32,
{
    Sha256::digest(data).to_vec()
}

/// 32 bytes from `rand::thread_rng().fill_bytes`; only the length is stated.
#[verifier::external_body]
fn random_bytes_32() -> (r: Vec<u8>)
    ensures
        r@.len() == 32,
{
    let mut bytes = [0u8; 32];
    rand::thread_rng().fill_bytes(&mut bytes);
    bytes.to_vec()
}

pub open spec fn hex_digit(n: int) -> char {
    if n < 10 {
        ('0' as int + n) as char
    } else {
        ('a' as int + n - 10) as char
    }
}

/// Lower-case hex, two digits per byte, high nibble first.
pub open spec fn spec_hex(bytes: Seq<u8>) -> Seq<char>
    decreases bytes.len(),
{
    if bytes.len() == 0 {
        Seq::empty()
    } else {
        spec_hex(bytes.drop_last()) + seq![
            hex_digit(bytes.last() as int / 16),
            hex_digit(bytes.last() as int % 16),
        ]
    }
}

fn hex_char(n: u8) -> (c: char)
    requires
        n < 16,
    ensures
        c == hex_digit(n as int),
{
    if n < 10 {
        ((48u8 + n) as char)
    } else {
        ((87u8 + n) as char)
    }
}

/// Lower-case hex encoding (what `hex::encode` produces).
pub fn hex_encode(bytes: &[u8]) -> (s: String)
    ensures
        s@ == spec_hex(bytes@),
        s@.len() == 2 * bytes@.len(),
{
    let mut s = String::new();
    let mut i: usize = 0;
    while i < bytes.len()
        invariant
            i <= bytes.len(),
            s@ == spec_hex(bytes@.take(i as int)),
            s@.len() == 2 * i,
        decreases bytes.len() - i,
    {
        let b = bytes[i];
        s.push(hex_char(b / 16));
        s.push(hex_char(b % 16));
        proof {
            assert(bytes@.take(i + 1).drop_last() =~= bytes@.take(i as int));
            assert(bytes@.take(i + 1).last() == b);
        }
        i += 1;
    }
    assert(bytes@.take(bytes.len() as int) =~= bytes@);
    s
}

/// A fresh opaque token: 64 lower-case hex characters.
pub fn generate_opaque_refresh_token() -> (t: String)
    ensures
        t@.len() == 64,
        exists|b: Seq<u8>| b.len() == 32 && t@ == spec_hex(b),
{
    let bytes = random_bytes_32();
    hex_encode(bytes.as_slice())
}

/// Stored form of a token given as text: hex SHA-256 of its UTF-8 encoding.
pub open spec fn spec_hash_token(token: Seq<char>) -> Seq<char> {
    spec_hex(spec_sha256(encode_utf8(token)))
}

/// Stored form of a token: hex SHA-256 of its UTF-8 bytes (64 characters).
pub fn hash_refresh_token(token: &str) -> (h: String)
    ensures
        h@ == spec_hash_token(token@),
        h@.len() == 64,
{
    let digest = sha256_digest(token.as_bytes());
    hex_encode(digest.as_slice())
}

} // verus!
