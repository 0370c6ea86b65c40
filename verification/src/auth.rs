//! The user record of the authentication service, and the password hashing
//! it relies on: the lowercase hexadecimal rendering of a SHA-256 digest.
use vstd::prelude::*;
use vstd::string::*;
use vstd::utf8::encode_utf8;
use sha2::Digest;

verus! {

/// A stored user: display name, login name and hashed password.
#[derive(Debug, Clone)]
pub struct User {
    pub nickname: String,
    pub username: String,
    pub passwd: String,
}

/// What sha2's Sha256 returns for a byte sequence: its 32-byte digest, a
/// function of the bytes alone.
pub uninterp spec fn sha256_of(b: Seq<u8>) -> Seq<u8>;

/// Relies on sha2's Sha256 (new, update, finalize): the digest depends on
/// the input bytes alone and is 32 bytes long.
#[verifier::external_body]
fn sha256_digest(b: &[u8]) -> (r: Vec<u8>)
    ensures
        r@ == sha256_of(b@),
        r@.len() == 32,
{
    let mut hasher = sha2::Sha256::new();
    hasher.update(b);
    hasher.finalize().to_vec()
}

/// The lowercase hexadecimal digit for a value below sixteen.
pub open spec fn spec_hex_digit(d: int) -> char {
    if d == 0 {
        '0'
    } else if d == 1 {
        '1'
    } else if d == 2 {
        '2'
    } else if d == 3 {
        '3'
    } else if d == 4 {
        '4'
    } else if d == 5 {
        '5'
    } else if d == 6 {
        '6'
    } else if d == 7 {
        '7'
    } else if d == 8 {
        '8'
    } else if d == 9 {
        '9'
    } else if d == 10 {
        'a'
    } else if d == 11 {
        'b'
    } else if d == 12 {
        'c'
    } else if d == 13 {
        'd'
    } else if d == 14 {
        'e'
    } else {
        'f'
    }
}

/// The lowercase hexadecimal rendering of a byte sequence: two digits per
/// byte, high nibble first.
pub open spec fn spec_hex(b: Seq<u8>) -> Seq<char> {
    Seq::new(
        2 * b.len(),
        |i: int|
            if i % 2 == 0 {
                spec_hex_digit(b[i / 2] as int / 16)
            } else {
                spec_hex_digit(b[i / 2] as int % 16)
            },
    )
}

/// Relies on hex::encode: the lowercase hexadecimal rendering of the bytes,
/// two digits per byte, high nibble first.
#[verifier::external_body]
fn hex_encode(b: &[u8]) -> (r: String)
    ensures
        r@ == spec_hex(b@),
{
    hex::encode(b)
}

/// Hash a secret for storage: the lowercase hexadecimal rendering of the
/// SHA-256 digest of its UTF-8 bytes.
pub fn hash(s: &str) -> (r: String)
    ensures
        r@ == spec_hex(sha256_of(encode_utf8(s@))),
        r@.len() == 64,
{
    let digest = sha256_digest(s.as_bytes());
    hex_encode(digest.as_slice())
}

} // verus!
