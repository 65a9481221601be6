//! Trusted boundary to the randomness, base64 and HMAC crates.
//!
//! Everything else in the crate speaks of these calls only through the
//! uninterpreted names and the facts stated here.

use vstd::prelude::*;

verus! {

/// A character of the URL-safe base64 alphabet.
pub open spec fn is_b64url_char(c: char) -> bool {
    ('A' <= c && c <= 'Z') || ('a' <= c && c <= 'z') || ('0' <= c && c <= '9') || c == '-' || c
        == '_'
}

/// What the URL-safe, unpadded base64 encoding of a byte sequence reads.
pub uninterp spec fn b64url_of(bytes: Seq<u8>) -> Seq<char>;

/// What the standard-alphabet base64 decoding of a string yields, when the
/// string is well-formed.
pub uninterp spec fn b64_standard_decoded(s: Seq<char>) -> Option<Seq<u8>>;

/// What the HMAC-SHA-384 tag over a key and a message reads.
pub uninterp spec fn hmac_sha384_of(key: Seq<u8>, msg: Seq<char>) -> Seq<u8>;

/// Relies on `rand::random`, backed by the thread-local CSPRNG: 32 fresh
/// bytes. Nothing is assumed about their values.
#[verifier::external_body]
pub(crate) fn random_bytes_32() -> (r: Vec<u8>)
    ensures
        r@.len() == 32,
{
    let bytes: [u8; 32] = rand::random();
    bytes.to_vec()
}

/// Relies on base64's `URL_SAFE_NO_PAD` engine: the encoding is a function
/// of the input bytes alone, uses the URL-safe alphabet, and emits four
/// characters for every three bytes with no padding.
#[verifier::external_body]
pub(crate) fn b64url_encode(bytes: &Vec<u8>) -> (r: String)
    requires
        bytes@.len() <= 0x10000000,
    ensures
        r@ == b64url_of(bytes@),
        r@.len() == (bytes@.len() * 4 + 2) / 3,
        forall|i: int| 0 <= i < r@.len() ==> is_b64url_char(#[trigger] r@[i]),
{
    base64::Engine::encode(&base64::engine::general_purpose::URL_SAFE_NO_PAD, bytes.as_slice())
}

/// Relies on base64's `STANDARD` engine: decoding is a function of the input
/// alone, and yields bytes exactly when the input is well-formed padded
/// base64.
#[verifier::external_body]
pub(crate) fn b64_standard_decode(s: &str) -> (r: Option<Vec<u8>>)
    ensures
        match r {
            Some(v) => b64_standard_decoded(s@) == Some(v@),
            None => b64_standard_decoded(s@) is None,
        },
{
    match base64::Engine::decode(&base64::engine::general_purpose::STANDARD, s) {
        Ok(v) => Some(v),
        Err(_) => None,
    }
}

/// Relies on `hmac::Hmac` over `sha2::Sha384`, through the `Mac` interface
/// (key setup, update, finalize): the 48-byte tag is a function of the key
/// and the message alone; HMAC accepts keys of any length, so the key
/// setup cannot fail.
#[verifier::external_body]
pub(crate) fn hmac_sha384(key: &Vec<u8>, msg: &str) -> (r: Vec<u8>)
    ensures
        r@ == hmac_sha384_of(key@, msg@),
        r@.len() == 48,
{
    let mut mac = <hmac::Hmac<sha2::Sha384> as hmac::KeyInit>::new_from_slice(key.as_slice())
        .expect("HMAC accepts keys of any length");
    hmac::Mac::update(&mut mac, msg.as_bytes());
    hmac::Mac::finalize(mac).into_bytes().to_vec()
}

} // verus!
