//! Sealing: authenticated encryption of a byte buffer together with
//! associated data that is authenticated but not encrypted.

use crate::aead::{decrypt_in_place, encrypt_in_place, seal_spec, KEY_SIZE, NONCE_SIZE, TAG_SIZE};
use vstd::prelude::*;
use vstd::slice::slice_to_vec;
use vstd::std_specs::convert::FromSpecImpl;
use zeroize::{Zeroize, Zeroizing};

verus! {

/// The sequence of `len` zero bytes.
pub open spec fn zeros(len: nat) -> Seq<u8> {
    Seq::new(len, |i: int| 0u8)
}

/// Calls `Zeroize::zeroize` on an array of bytes.
///
/// Trusted: every byte of the array is zero afterwards, and the call does not
/// panic.
#[verifier::external_body]
fn wipe<const N: usize>(bytes: &mut [u8; N])
    ensures
        forall|i: int| 0 <= i < N ==> final(bytes)@[i] == 0u8,
    opens_invariants none
    no_unwind
{
    bytes.zeroize()
}

/// A nonce should only ever be used once for any given key. Nonces may either
/// be randomly generated or, otherwise, carefully selected to ensure
/// uniqueness. The memory of a nonce is overwritten with zeros when it is
/// dropped.
#[derive(Debug)]
pub struct Nonce([u8; NONCE_SIZE]);

impl View for Nonce {
    type V = Seq<u8>;

    closed spec fn view(&self) -> Seq<u8> {
        self.0@
    }
}

impl Nonce {
    pub const SIZE: usize = NONCE_SIZE;

    pub fn new(nonce: [u8; NONCE_SIZE]) -> (r: Nonce)
        ensures
            r@ == nonce@,
    {
        Nonce::from(nonce)
    }

    /// The bytes of the nonce.
    pub fn as_bytes(&self) -> (bytes: &[u8; NONCE_SIZE])
        ensures
            bytes@ == self@,
    {
        &self.0
    }

    /// Overwrites the nonce with zeros.
    pub fn zeroize(&mut self)
        ensures
            final(self)@ == zeros(NONCE_SIZE as nat),
    {
        wipe(&mut self.0);
        assert(self.0@ =~= zeros(NONCE_SIZE as nat));
    }
}

impl Drop for Nonce {
    fn drop(&mut self)
        opens_invariants none
        no_unwind
    {
        wipe(&mut self.0);
    }
}

/// A key used for symmetric encryption. Its memory is overwritten with zeros
/// when it is dropped.
pub struct SecretKey([u8; KEY_SIZE]);

impl View for SecretKey {
    type V = Seq<u8>;

    closed spec fn view(&self) -> Seq<u8> {
        self.0@
    }
}

impl SecretKey {
    pub const SIZE: usize = KEY_SIZE;

    pub fn new(key: [u8; KEY_SIZE]) -> (r: SecretKey)
        ensures
            r@ == key@,
    {
        SecretKey::from(key)
    }

    /// A key of the given bytes, where there are [`SecretKey::SIZE`] of them.
    ///
    /// The bytes are written straight into the key, so that no copy of them
    /// is left behind unwiped.
    pub fn from_slice(bytes: &[u8]) -> (r: Option<SecretKey>)
        ensures
            r is Some <==> bytes@.len() == KEY_SIZE,
            r matches Some(key) ==> key@ == bytes@,
    {
        if bytes.len() != KEY_SIZE {
            return None;
        }
        let mut key = SecretKey([0u8; KEY_SIZE]);
        let mut i: usize = 0;
        while i < KEY_SIZE
            invariant
                i <= KEY_SIZE,
                bytes@.len() == KEY_SIZE,
                forall|j: int| 0 <= j < i ==> key.0@[j] == bytes@[j],
            decreases KEY_SIZE - i,
        {
            key.0[i] = bytes[i];
            i += 1;
        }
        assert(key.0@ =~= bytes@);
        Some(key)
    }

    /// The bytes of the key.
    pub fn as_bytes(&self) -> (bytes: &[u8; KEY_SIZE])
        ensures
            bytes@ == self@,
    {
        &self.0
    }

    /// Overwrites the key with zeros.
    pub fn zeroize(&mut self)
        ensures
            final(self)@ == zeros(KEY_SIZE as nat),
    {
        wipe(&mut self.0);
        assert(self.0@ =~= zeros(KEY_SIZE as nat));
    }
}

impl Clone for SecretKey {
    fn clone(&self) -> (r: SecretKey)
        ensures
            r@ == self@,
    {
        SecretKey(self.0)
    }
}

impl Drop for SecretKey {
    fn drop(&mut self)
        opens_invariants none
        no_unwind
    {
        wipe(&mut self.0);
    }
}

impl From<[u8; KEY_SIZE]> for SecretKey {
    fn from(secret: [u8; KEY_SIZE]) -> (r: SecretKey)
        ensures
            r@ == secret@,
    {
        SecretKey(secret)
    }
}

impl FromSpecImpl<[u8; KEY_SIZE]> for SecretKey {
    open spec fn obeys_from_spec() -> bool {
        true
    }

    closed spec fn from_spec(secret: [u8; KEY_SIZE]) -> SecretKey {
        SecretKey(secret)
    }
}

impl From<[u8; NONCE_SIZE]> for Nonce {
    fn from(nonce: [u8; NONCE_SIZE]) -> (r: Nonce)
        ensures
            r@ == nonce@,
    {
        Nonce(nonce)
    }
}

impl FromSpecImpl<[u8; NONCE_SIZE]> for Nonce {
    open spec fn obeys_from_spec() -> bool {
        true
    }

    closed spec fn from_spec(nonce: [u8; NONCE_SIZE]) -> Nonce {
        Nonce(nonce)
    }
}

impl From<SecretKey> for [u8; KEY_SIZE] {
    fn from(key: SecretKey) -> (bytes: [u8; KEY_SIZE])
        ensures
            bytes@ == key@,
    {
        key.0
    }
}

impl FromSpecImpl<SecretKey> for [u8; KEY_SIZE] {
    open spec fn obeys_from_spec() -> bool {
        true
    }

    closed spec fn from_spec(key: SecretKey) -> [u8; KEY_SIZE] {
        key.0
    }
}

impl From<Nonce> for [u8; NONCE_SIZE] {
    fn from(nonce: Nonce) -> (bytes: [u8; NONCE_SIZE])
        ensures
            bytes@ == nonce@,
    {
        nonce.0
    }
}

impl FromSpecImpl<Nonce> for [u8; NONCE_SIZE] {
    open spec fn obeys_from_spec() -> bool {
        true
    }

    closed spec fn from_spec(nonce: Nonce) -> [u8; NONCE_SIZE] {
        nonce.0
    }
}

/// The cipher failed, or what it was given to open is not authentic.
#[derive(Debug, Clone, Copy, PartialEq, Eq, Structural)]
pub struct CryptoError;

/// What opening `sealed` yields: a message that was sealed into it under the
/// same key, nonce and associated data, or nothing where there is none.
pub open spec fn open_spec(sealed: Seq<u8>, key: Seq<u8>, nonce: Seq<u8>, aad: Seq<u8>) -> Option<
    Seq<u8>,
> {
    if exists|msg: Seq<u8>| seal_spec(msg, key, nonce, aad) == Some(sealed) {
        Some(choose|msg: Seq<u8>| seal_spec(msg, key, nonce, aad) == Some(sealed))
    } else {
        None
    }
}

/// Cryptographically seal and authenticate a message using the
/// ChaCha20-Poly1305 algorithm for AEAD. Associated data is also
/// authenticated, but not encrypted.
///
/// The caller's buffer is left untouched: the message is copied first.
pub fn seal(msg: &[u8], key: SecretKey, nonce: Nonce, aad: &[u8]) -> (r: Result<
    Box<[u8]>,
    CryptoError,
>)
    ensures
        r is Ok <==> seal_spec(msg@, key@, nonce@, aad@) is Some,
        r matches Ok(sealed) ==> Some(sealed@) == seal_spec(msg@, key@, nonce@, aad@),
        r matches Ok(sealed) ==> sealed@.len() == msg@.len() + TAG_SIZE,
{
    let mut buffer = slice_to_vec(msg);
    match encrypt_in_place(key.as_bytes(), nonce.as_bytes(), aad, &mut buffer) {
        Ok(()) => Ok(into_boxed_slice(buffer)),
        Err(_) => Err(CryptoError),
    }
}

/// Calls `Vec::into_boxed_slice`, which keeps the elements and their order.
#[verifier::external_body]
pub(crate) fn into_boxed_slice(bytes: Vec<u8>) -> (boxed: Box<[u8]>)
    ensures
        boxed@ == bytes@,
{
    bytes.into_boxed_slice()
}

/// Plaintext released by [`open`]. Its memory is overwritten with zeros when
/// it is dropped.
#[verifier::external_body]
pub struct SecretBytes {
    inner: Zeroizing<Box<[u8]>>,
}

/// The bytes that a [`SecretBytes`] holds.
pub uninterp spec fn secret_bytes(secret: SecretBytes) -> Seq<u8>;

impl View for SecretBytes {
    type V = Seq<u8>;

    open spec fn view(&self) -> Seq<u8> {
        secret_bytes(*self)
    }
}

impl SecretBytes {
    /// Calls `Zeroizing::new` on the bytes.
    #[verifier::external_body]
    fn new(bytes: Box<[u8]>) -> (secret: SecretBytes)
        ensures
            secret_bytes(secret) == bytes@,
    {
        SecretBytes { inner: Zeroizing::new(bytes) }
    }

    /// Borrows the bytes, through `Zeroizing`'s `Deref`.
    #[verifier::external_body]
    fn expose(&self) -> (bytes: &[u8])
        ensures
            bytes@ == secret_bytes(*self),
    {
        &self.inner
    }

    /// The bytes that were opened.
    pub fn as_bytes(&self) -> (bytes: &[u8])
        ensures
            bytes@ == self@,
    {
        self.expose()
    }
}

impl core::ops::Deref for SecretBytes {
    type Target = [u8];

    fn deref(&self) -> (bytes: &[u8])
        ensures
            bytes@ == self@,
    {
        self.as_bytes()
    }
}

/// Cryptographically unseal and authenticate a message by supplying it
/// alongside its associated data.
///
/// No plaintext is released unless the tag matches: opening succeeds exactly
/// on what [`seal`] produced under the same key, nonce and associated data,
/// and gives the sealed message back.
pub fn open(sealed_msg: &[u8], key: SecretKey, nonce: Nonce, aad: &[u8]) -> (r: Result<
    SecretBytes,
    CryptoError,
>)
    ensures
        r is Ok <==> open_spec(sealed_msg@, key@, nonce@, aad@) is Some,
        r matches Ok(opened) ==> Some(opened@) == open_spec(sealed_msg@, key@, nonce@, aad@),
        r matches Ok(opened) ==> seal_spec(opened@, key@, nonce@, aad@) == Some(sealed_msg@),
        r matches Ok(opened) ==> opened@.len() + TAG_SIZE == sealed_msg@.len(),
        forall|msg: Seq<u8>| #[trigger]
            seal_spec(msg, key@, nonce@, aad@) == Some(sealed_msg@) ==> r is Ok && r.unwrap()@
                == msg,
{
    let mut buffer = slice_to_vec(sealed_msg);
    match decrypt_in_place(key.as_bytes(), nonce.as_bytes(), aad, &mut buffer) {
        Ok(()) => Ok(SecretBytes::new(into_boxed_slice(buffer))),
        Err(_) => Err(CryptoError),
    }
}

} // verus!
