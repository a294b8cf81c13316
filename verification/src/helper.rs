//! Generation of challenges and user handles.

use crate::codec::{base64url_decoding, base64url_encoding, encode_base64url};
use vstd::prelude::*;

verus! {

/// Default length of a challenge, in bytes.
pub const DEFAULT_CHALLENGE_LENGTH: usize = 32;

/// Default length of a user handle, in bytes.
pub const DEFAULT_USER_HANDLE_LENGTH: usize = 20;

/// Calls `rand::thread_rng` and fills a fresh buffer with
/// `rand::RngCore::fill_bytes`.
///
/// Trusted: the buffer has the requested length. Nothing is claimed of its
/// contents: two calls may return different bytes. The generator is the
/// crate's thread-local cryptographically secure one; where the operating
/// system cannot seed it the crate panics, which ends the process.
#[verifier::external_body]
fn random_bytes(length: usize) -> (bytes: Vec<u8>)
    requires
        length <= isize::MAX,
    ensures
        bytes@.len() == length,
{
    let mut bytes = vec![0u8; length];
    rand::RngCore::fill_bytes(&mut rand::thread_rng(), &mut bytes);
    bytes
}

/// Whether `text` is the base64url text of a byte string of the given
/// length: it decodes to such a byte string and is its encoding.
pub open spec fn encodes_bytes_of_length(text: Seq<char>, length: nat) -> bool {
    base64url_decoding(text) matches Some(bytes) && bytes.len() == length && text
        == base64url_encoding(bytes)
}

/// Draws `length` random bytes and returns them as base64url text.
///
/// Whatever bytes are drawn, the text decodes to a byte string of the
/// requested length.
pub fn generate_random(length: usize) -> (text: String)
    requires
        length <= isize::MAX,
    ensures
        encodes_bytes_of_length(text@, length as nat),
{
    let bytes = random_bytes(length);
    encode_base64url(bytes.as_slice())
}

} // verus!
