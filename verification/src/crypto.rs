//! The cryptographic primitives every signing scheme rests on: HMAC-SHA256,
//! MD5 and lowercase hex encoding. The digests themselves come from outside
//! crates and are only named here; hex encoding is pinned down exactly.
use hmac::{KeyInit, Mac};
use md5::Digest;
use vstd::prelude::*;

verus! {

/// The character for one hex digit, lowercase.
pub open spec fn hex_char(d: nat) -> char {
    if d == 0 {
        '0'
    } else if d == 1 {
        '1'
    } else if d == 2 {
        '2'
    } else if d == 3 {
        '3'
    } else if d == 4 {
        '4'
    } else if d == 5 {
        '5'
    } else if d == 6 {
        '6'
    } else if d == 7 {
        '7'
    } else if d == 8 {
        '8'
    } else if d == 9 {
        '9'
    } else if d == 10 {
        'a'
    } else if d == 11 {
        'b'
    } else if d == 12 {
        'c'
    } else if d == 13 {
        'd'
    } else if d == 14 {
        'e'
    } else {
        'f'
    }
}

/// Lowercase hex encoding: two digits for each byte, high nibble first.
pub open spec fn hex_of(data: Seq<u8>) -> Seq<char>
    decreases data.len(),
{
    if data.len() == 0 {
        Seq::empty()
    } else {
        seq![
            hex_char((data.first() / 16) as nat),
            hex_char((data.first() % 16) as nat),
        ] + hex_of(data.drop_first())
    }
}

pub proof fn lemma_hex_of_len(data: Seq<u8>)
    ensures
        hex_of(data).len() == 2 * data.len(),
    decreases data.len(),
{
    if data.len() > 0 {
        lemma_hex_of_len(data.drop_first());
    }
}

pub fn hex_digit(d: u8) -> (c: char)
    requires
        d < 16,
    ensures
        c == hex_char(d as nat),
{
    if d == 0 {
        '0'
    } else if d == 1 {
        '1'
    } else if d == 2 {
        '2'
    } else if d == 3 {
        '3'
    } else if d == 4 {
        '4'
    } else if d == 5 {
        '5'
    } else if d == 6 {
        '6'
    } else if d == 7 {
        '7'
    } else if d == 8 {
        '8'
    } else if d == 9 {
        '9'
    } else if d == 10 {
        'a'
    } else if d == 11 {
        'b'
    } else if d == 12 {
        'c'
    } else if d == 13 {
        'd'
    } else if d == 14 {
        'e'
    } else {
        'f'
    }
}

/// Relies on hex::encode: the lowercase hex digits of the bytes, in order,
/// high nibble of each byte first.
#[verifier::external_body]
pub fn hex_encode(data: &[u8]) -> (r: String)
    ensures
        r@ == hex_of(data@),
{
    hex::encode(data)
}

/// The HMAC-SHA256 tag for a key and a message, both given as the UTF-8
/// text they are in this protocol. A pure function of its arguments.
pub uninterp spec fn hmac_sha256_of(key: Seq<char>, msg: Seq<char>) -> Seq<u8>;

/// Relies on hmac::Hmac over sha2::Sha256: the 32-byte HMAC-SHA256 tag of
/// the message under the key. HMAC accepts keys of any length, so
/// new_from_slice cannot fail.
#[verifier::external_body]
pub fn hmac_sha256(key: &str, msg: &str) -> (r: Vec<u8>)
    ensures
        r@ == hmac_sha256_of(key@, msg@),
        r@.len() == 32,
{
    let mut mac = hmac::Hmac::<sha2::Sha256>::new_from_slice(key.as_bytes())
        .expect("HMAC can take key of any size");
    mac.update(msg.as_bytes());
    mac.finalize().into_bytes().to_vec()
}

/// The MD5 digest of a piece of UTF-8 text. A pure function of its argument.
pub uninterp spec fn md5_of(msg: Seq<char>) -> Seq<u8>;

/// Relies on md5::Md5 (the md-5 crate): the 16-byte MD5 digest of the text.
#[verifier::external_body]
pub fn md5_digest(msg: &str) -> (r: Vec<u8>)
    ensures
        r@ == md5_of(msg@),
        r@.len() == 16,
{
    let mut hasher = md5::Md5::new();
    hasher.update(msg.as_bytes());
    hasher.finalize().to_vec()
}

} // verus!
