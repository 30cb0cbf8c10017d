//! The ChaCha20-Poly1305 primitive, as provided by `ring_compat`.
//!
//! Nothing in this module is proved: it states what the rest of the crate
//! takes for granted about the cipher.

use ring_compat::aead::{AeadInPlace, ChaCha20Poly1305, KeyInit};
use vstd::prelude::*;

verus! {

/// Number of bytes in a key.
pub const KEY_SIZE: usize = 32;

/// Number of bytes in a nonce.
pub const NONCE_SIZE: usize = 12;

/// Number of bytes in the authentication tag that follows the ciphertext.
pub const TAG_SIZE: usize = 16;

/// The longest message, in bytes, that the cipher accepts under one nonce.
pub const MAX_MESSAGE_LEN: u64 = 274_877_906_880;

/// The error of `ring_compat::aead`, which carries no detail by design.
#[verifier::external_type_specification]
#[verifier::external_body]
pub struct ExAeadError(ring_compat::aead::Error);

/// Ciphertext followed by tag: what `ChaCha20Poly1305::encrypt_in_place`
/// leaves in its buffer for a message of at most [`MAX_MESSAGE_LEN`] bytes.
pub uninterp spec fn chacha20_poly1305(
    key: Seq<u8>,
    nonce: Seq<u8>,
    aad: Seq<u8>,
    msg: Seq<u8>,
) -> Seq<u8>;

/// What sealing `msg` yields: ciphertext and tag, or nothing where the
/// message is too long for the cipher.
pub open spec fn seal_spec(msg: Seq<u8>, key: Seq<u8>, nonce: Seq<u8>, aad: Seq<u8>) -> Option<
    Seq<u8>,
> {
    if msg.len() <= MAX_MESSAGE_LEN {
        Some(chacha20_poly1305(key, nonce, aad, msg))
    } else {
        None
    }
}

/// Calls `ChaCha20Poly1305::encrypt_in_place` on a `Vec<u8>` buffer.
///
/// Trusted: the call fails exactly when the message is longer than
/// [`MAX_MESSAGE_LEN`]; otherwise it replaces the message by its ciphertext,
/// of the same length, and appends the tag of [`TAG_SIZE`] bytes.
#[verifier::external_body]
pub(crate) fn encrypt_in_place(
    key: &[u8; KEY_SIZE],
    nonce: &[u8; NONCE_SIZE],
    aad: &[u8],
    buffer: &mut Vec<u8>,
) -> (r: Result<(), ring_compat::aead::Error>)
    ensures
        r is Ok <==> old(buffer)@.len() <= MAX_MESSAGE_LEN,
        r is Ok ==> final(buffer)@ == chacha20_poly1305(key@, nonce@, aad@, old(buffer)@),
        r is Ok ==> final(buffer)@.len() == old(buffer)@.len() + TAG_SIZE,
{
    let cipher = ChaCha20Poly1305::new(key.into());
    cipher.encrypt_in_place(nonce.into(), aad, buffer)
}

/// Calls `ChaCha20Poly1305::decrypt_in_place` on a `Vec<u8>` buffer.
///
/// Trusted: decryption inverts encryption. The call succeeds exactly when the
/// buffer is the sealing of some message under the same key, nonce and
/// associated data, and then leaves that message, the only such one, in the
/// buffer: the buffer without its last [`TAG_SIZE`] bytes, decrypted in place.
#[verifier::external_body]
pub(crate) fn decrypt_in_place(
    key: &[u8; KEY_SIZE],
    nonce: &[u8; NONCE_SIZE],
    aad: &[u8],
    buffer: &mut Vec<u8>,
) -> (r: Result<(), ring_compat::aead::Error>)
    ensures
        r is Ok ==> seal_spec(final(buffer)@, key@, nonce@, aad@) == Some(old(buffer)@),
        r is Ok ==> final(buffer)@.len() + TAG_SIZE == old(buffer)@.len(),
        forall|msg: Seq<u8>| #[trigger]
            seal_spec(msg, key@, nonce@, aad@) == Some(old(buffer)@) ==> r is Ok
                && final(buffer)@ == msg,
{
    let cipher = ChaCha20Poly1305::new(key.into());
    cipher.decrypt_in_place(nonce.into(), aad, buffer)
}

} // verus!
