//! Base64url and SHA-256, as the `base64` and `sha2` crates compute them.
//!
//! The contracts of this module speak of three named results:
//! [`base64url_encoding`], [`base64url_decoding`] and [`sha256_digest`]. Each
//! stands for what the outside crate returns on the given input, and nothing
//! in this crate proves anything about the crates themselves.

use crate::error::CodecError;
use sha2::Digest;
use vstd::prelude::*;
use vstd::utf8::encode_utf8_decode_utf8;

verus! {

#[verifier::external_type_specification]
#[verifier::external_body]
pub struct ExBase64DecodeError(base64::DecodeError);

/// The unpadded base64url text of a byte string.
pub uninterp spec fn base64url_encoding(bytes: Seq<u8>) -> Seq<char>;

/// The bytes that a base64url text stands for, with or without padding, or
/// `None` where the text is no base64url.
pub uninterp spec fn base64url_decoding(text: Seq<char>) -> Option<Seq<u8>>;

/// The SHA-256 digest of a byte string.
pub uninterp spec fn sha256_digest(data: Seq<u8>) -> Seq<u8>;

/// Whether a byte string of this length can be encoded: the length of the
/// text must fit in `usize`.
pub open spec fn encodable_length(length: nat) -> bool {
    length / 3 * 4 + 3 <= usize::MAX
}

/// Calls `base64::Engine::encode` on the crate's engine `URL_SAFE_NO_PAD`:
/// the URL-safe alphabet, no padding.
///
/// Trusted: the result is the crate's encoding of `bytes`, and the engine of
/// [`base64_decode`] decodes that text to `bytes` again. The crate panics
/// where the length of the text overflows `usize`, which `requires` excludes.
#[verifier::external_body]
fn base64_encode(bytes: &[u8]) -> (text: String)
    requires
        encodable_length(bytes@.len()),
    ensures
        text@ == base64url_encoding(bytes@),
        base64url_decoding(text@) == Some(bytes@),
{
    base64::Engine::encode(&base64::engine::general_purpose::URL_SAFE_NO_PAD, bytes)
}

/// Calls `base64::Engine::decode` on a general-purpose engine with the
/// URL-safe alphabet whose padding mode is `Indifferent`: it accepts
/// canonical padding as well as less or none.
///
/// Trusted: the call succeeds exactly on the texts that are base64url, and
/// then returns the bytes they stand for.
#[verifier::external_body]
fn base64_decode(text: &str) -> (r: Result<Vec<u8>, base64::DecodeError>)
    ensures
        match r {
            Ok(bytes) => base64url_decoding(text@) == Some(bytes@),
            Err(_) => base64url_decoding(text@) is None,
        },
{
    let config = base64::engine::GeneralPurposeConfig::new()
        .with_decode_padding_mode(base64::engine::DecodePaddingMode::Indifferent);
    let engine = base64::engine::GeneralPurpose::new(&base64::alphabet::URL_SAFE, config);
    base64::Engine::decode(&engine, text)
}

/// Calls `sha2::Sha256::digest`.
///
/// Trusted: the result is the SHA-256 digest of `data`, which has 32 bytes.
#[verifier::external_body]
fn sha2_digest(data: &[u8]) -> (digest: Vec<u8>)
    ensures
        digest@ == sha256_digest(data@),
        digest@.len() == 32,
{
    sha2::Sha256::digest(data).to_vec()
}

/// Encodes bytes as unpadded base64url text.
pub fn encode_base64url(bytes: &[u8]) -> (text: String)
    requires
        encodable_length(bytes@.len()),
    ensures
        text@ == base64url_encoding(bytes@),
        base64url_decoding(text@) == Some(bytes@),
{
    base64_encode(bytes)
}

/// Decodes base64url text, padded or not.
///
/// Fails with `DecodeError` exactly on the texts that are no base64url.
pub fn decode_base64url(text: &str) -> (r: Result<Vec<u8>, CodecError>)
    ensures
        match r {
            Ok(bytes) => base64url_decoding(text@) == Some(bytes@),
            Err(e) => e == CodecError::DecodeError && base64url_decoding(text@) is None,
        },
{
    match base64_decode(text) {
        Ok(bytes) => Ok(bytes),
        Err(_) => Err(CodecError::DecodeError),
    }
}

/// The SHA-256 digest of `data`.
pub fn sha256(data: &[u8]) -> (digest: Vec<u8>)
    ensures
        digest@ == sha256_digest(data@),
        digest@.len() == 32,
{
    sha2_digest(data)
}

/// Whether two byte strings are equal.
pub fn bytes_equal(a: &[u8], b: &[u8]) -> (r: bool)
    ensures
        r == (a@ == b@),
{
    if a.len() != b.len() {
        return false;
    }
    let mut i: usize = 0;
    while i < a.len()
        invariant
            i <= a.len(),
            a.len() == b.len(),
            forall|j: int| 0 <= j < i ==> a@[j] == b@[j],
        decreases a.len() - i,
    {
        if a[i] != b[i] {
            return false;
        }
        i += 1;
    }
    assert(a@ =~= b@);
    true
}

/// Whether two texts are equal.
pub fn text_equal(a: &str, b: &str) -> (r: bool)
    ensures
        r == (a@ == b@),
{
    let r = bytes_equal(a.as_bytes(), b.as_bytes());
    proof {
        // Texts with the same UTF-8 bytes are the same text.
        encode_utf8_decode_utf8(a@);
        encode_utf8_decode_utf8(b@);
    }
    r
}

} // verus!
