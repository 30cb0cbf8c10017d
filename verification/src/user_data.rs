//! Sealing of user data under two keys.
//!
//! The data is sealed with a fresh key of its own, and that key is sealed
//! with a key that only the trusted environment can derive again. The sealed
//! data can then be stored anywhere, and opened only where the second key
//! can be derived.

use crate::aead::{seal_spec, KEY_SIZE, MAX_MESSAGE_LEN, NONCE_SIZE, TAG_SIZE};
use crate::derivation::{
    derives_only, may_derive, new_pepper, DerivationError, DerivationPolicy, KeyRequest,
};
use crate::sealing::{
    into_boxed_slice, open, open_spec, seal, zeros, CryptoError, Nonce, SecretBytes, SecretKey,
};
use vstd::prelude::*;
use vstd::slice::slice_to_vec;

verus! {

/// Number of bytes in a sealed key: the key and the tag.
pub const SEALED_KEY_SIZE: usize = KEY_SIZE + TAG_SIZE;

/// The nonce under which both the data and the key are sealed.
///
/// One nonce for every call is sound only because no key is used twice: the
/// key of the data is fresh in every call, and the key that seals it is used
/// under this nonce for nothing but that.
pub open spec fn fixed_nonce() -> Seq<u8> {
    zeros(NONCE_SIZE as nat)
}

fn new_fixed_nonce() -> (nonce: Nonce)
    ensures
        nonce@ == fixed_nonce(),
{
    let bytes = [0u8; NONCE_SIZE];
    assert(bytes@ =~= fixed_nonce());
    Nonce::new(bytes)
}

/// Sealed user data, with the user it belongs to and the sealed key that
/// opens it.
#[derive(Debug)]
pub struct SealedUserData {
    pub user_id: Box<[u8]>,
    pub user_data: Box<[u8]>,
    pub user_sealing_key: [u8; SEALED_KEY_SIZE],
}

/// What sealing `user_data` for `user_id` yields: the data sealed under
/// `user_sealing_key`, and that key sealed under `enclave_key`, both bound to
/// the user identifier.
pub open spec fn seal_user_data_spec(
    user_id: Seq<u8>,
    user_data: Seq<u8>,
    user_sealing_key: Seq<u8>,
    enclave_key: Seq<u8>,
) -> Option<(Seq<u8>, Seq<u8>)> {
    match (
        seal_spec(user_data, user_sealing_key, fixed_nonce(), user_id),
        seal_spec(user_sealing_key, enclave_key, fixed_nonce(), user_id),
    ) {
        (Some(sealed_data), Some(sealed_key)) => Some((sealed_data, sealed_key)),
        _ => None,
    }
}

/// What unsealing yields: the key is opened under `enclave_key`, then the
/// data under the opened key. Nothing where either fails.
pub open spec fn unseal_user_data_spec(
    user_id: Seq<u8>,
    sealed_user_data: Seq<u8>,
    sealed_user_sealing_key: Seq<u8>,
    enclave_key: Seq<u8>,
) -> Option<Seq<u8>> {
    match open_spec(sealed_user_sealing_key, enclave_key, fixed_nonce(), user_id) {
        Some(user_sealing_key) => if user_sealing_key.len() == KEY_SIZE {
            open_spec(sealed_user_data, user_sealing_key, fixed_nonce(), user_id)
        } else {
            None
        },
        None => None,
    }
}

/// Seals a sealing key under the key of the environment.
fn seal_sealing_key(user_id: &[u8], user_sealing_key: &SecretKey, enclave_key: SecretKey) -> (r:
    Result<[u8; SEALED_KEY_SIZE], CryptoError>)
    ensures
        r matches Ok(sealed_key) && Some(sealed_key@) == seal_spec(
            user_sealing_key@,
            enclave_key@,
            fixed_nonce(),
            user_id@,
        ),
{
    let sealed_key = match seal(
        user_sealing_key.as_bytes().as_slice(),
        enclave_key,
        new_fixed_nonce(),
        user_id,
    ) {
        Ok(sealed_key) => sealed_key,
        Err(e) => { return Err(e); },
    };
    let mut key_bytes = [0u8; SEALED_KEY_SIZE];
    let mut i: usize = 0;
    while i < SEALED_KEY_SIZE
        invariant
            i <= SEALED_KEY_SIZE,
            sealed_key@.len() == SEALED_KEY_SIZE,
            forall|j: int| 0 <= j < i ==> key_bytes@[j] == sealed_key@[j],
        decreases SEALED_KEY_SIZE - i,
    {
        key_bytes[i] = sealed_key[i];
        i += 1;
    }
    assert(key_bytes@ =~= sealed_key@);
    Ok(key_bytes)
}

/// Seal private user data under `user_sealing_key`, and that key under
/// `enclave_key`.
///
/// Both keys are consumed, and wiped from memory before the call returns.
pub fn seal_user_data(
    user_id: &[u8],
    user_data: &[u8],
    user_sealing_key: SecretKey,
    enclave_key: SecretKey,
) -> (r: Result<(Box<[u8]>, [u8; SEALED_KEY_SIZE]), CryptoError>)
    ensures
        r is Ok <==> user_data@.len() <= MAX_MESSAGE_LEN,
        r matches Ok((sealed_data, sealed_key)) ==> seal_user_data_spec(
            user_id@,
            user_data@,
            user_sealing_key@,
            enclave_key@,
        ) == Some((sealed_data@, sealed_key@)),
        r matches Ok((sealed_data, sealed_key)) ==> sealed_data@.len() == user_data@.len()
            + TAG_SIZE,
        r is Err ==> seal_user_data_spec(user_id@, user_data@, user_sealing_key@, enclave_key@)
            is None,
{
    let sealed_data = match seal(user_data, user_sealing_key.clone(), new_fixed_nonce(), user_id) {
        Ok(sealed_data) => sealed_data,
        Err(e) => { return Err(e); },
    };
    match seal_sealing_key(user_id, &user_sealing_key, enclave_key) {
        Ok(sealed_key) => Ok((sealed_data, sealed_key)),
        Err(e) => Err(e),
    }
}

/// Open what [`seal_user_data`] sealed for `user_id`.
///
/// The sealed key is opened first, then the data with it; where either fails
/// to authenticate, nothing is released.
pub fn unseal_user_data(
    user_id: &[u8],
    sealed_user_data: &[u8],
    sealed_user_sealing_key: &[u8],
    enclave_key: SecretKey,
) -> (r: Result<SecretBytes, CryptoError>)
    ensures
        r matches Ok(user_data) ==> unseal_user_data_spec(
            user_id@,
            sealed_user_data@,
            sealed_user_sealing_key@,
            enclave_key@,
        ) == Some(user_data@),
        r is Err ==> unseal_user_data_spec(
            user_id@,
            sealed_user_data@,
            sealed_user_sealing_key@,
            enclave_key@,
        ) is None,
        forall|user_data: Seq<u8>, user_sealing_key: Seq<u8>|
            user_sealing_key.len() == KEY_SIZE && #[trigger] seal_user_data_spec(
                user_id@,
                user_data,
                user_sealing_key,
                enclave_key@,
            ) == Some((sealed_user_data@, sealed_user_sealing_key@)) ==> r is Ok && r.unwrap()@
                == user_data,
{
    let opened_key = match open(sealed_user_sealing_key, enclave_key, new_fixed_nonce(), user_id) {
        Ok(opened_key) => opened_key,
        Err(e) => { return Err(e); },
    };
    match SecretKey::from_slice(opened_key.as_bytes()) {
        Some(user_sealing_key) => open(
            sealed_user_data,
            user_sealing_key,
            new_fixed_nonce(),
            user_id,
        ),
        None => Err(CryptoError),
    }
}

/// Why user data was neither sealed nor unsealed.
#[derive(Debug, Clone, Copy, PartialEq, Eq, Structural)]
pub enum SealError {
    /// The hardware key source is unavailable.
    DerivationError,
    /// The cipher failed, or what it was given to open is not authentic.
    CryptoError,
}

impl View for SealedUserData {
    type V = (Seq<u8>, Seq<u8>, Seq<u8>);

    /// The user identifier, the sealed data and the sealed key.
    open spec fn view(&self) -> (Seq<u8>, Seq<u8>, Seq<u8>) {
        (self.user_id@, self.user_data@, self.user_sealing_key@)
    }
}

/// What sealing gives once the environment has answered: the data is sealed
/// first, under the fresh key; then the key of the environment is needed.
pub open spec fn seal_outcome(
    user_id: Seq<u8>,
    user_data: Seq<u8>,
    user_sealing_key: Seq<u8>,
    pepper: Result<SecretKey, DerivationError>,
) -> Result<(Seq<u8>, Seq<u8>, Seq<u8>), SealError> {
    if user_data.len() > MAX_MESSAGE_LEN {
        Err(SealError::CryptoError)
    } else {
        match pepper {
            Err(_) => Err(SealError::DerivationError),
            Ok(enclave_key) => match seal_user_data_spec(
                user_id,
                user_data,
                user_sealing_key,
                enclave_key@,
            ) {
                Some((sealed_data, sealed_key)) => Ok((user_id, sealed_data, sealed_key)),
                None => Err(SealError::CryptoError),
            },
        }
    }
}

/// What unsealing gives once the hardware key source has answered.
pub open spec fn unseal_outcome(
    sealed: (Seq<u8>, Seq<u8>, Seq<u8>),
    pepper: Result<SecretKey, DerivationError>,
) -> Result<Seq<u8>, SealError> {
    match pepper {
        Err(_) => Err(SealError::DerivationError),
        Ok(enclave_key) => match unseal_user_data_spec(sealed.0, sealed.1, sealed.2, enclave_key@) {
            Some(user_data) => Ok(user_data),
            None => Err(SealError::CryptoError),
        },
    }
}

/// A result with what it holds taken by its view.
pub open spec fn result_view<T: View>(r: Result<T, SealError>) -> Result<T::V, SealError> {
    match r {
        Ok(value) => Ok(value@),
        Err(e) => Err(e),
    }
}

/// Seal private user data for the user `user_id`.
///
/// A fresh sealing key is asked of `random_key` and the data sealed with it;
/// then the pepper of the user is asked of `derive_key` and the sealing key
/// sealed with that. Both keys are wiped from memory before the call returns.
pub fn safe_seal_user_data<R, D>(
    random_key: R,
    derive_key: D,
    user_id: &[u8],
    user_data: &[u8],
) -> (r: Result<SealedUserData, SealError>) where
    R: FnOnce() -> SecretKey,
    D: FnOnce(KeyRequest) -> Result<SecretKey, DerivationError>,

    requires
        call_requires(random_key, ()),
        forall|request: KeyRequest|
            request@ == (user_id@, DerivationPolicy::SignerScoped) ==> call_requires(
                derive_key,
                (request,),
            ),
    ensures
        user_data@.len() > MAX_MESSAGE_LEN ==> r matches Err(SealError::CryptoError),
        user_data@.len() <= MAX_MESSAGE_LEN ==> exists|
            user_sealing_key: SecretKey,
            pepper: Result<SecretKey, DerivationError>,
        |
            call_ensures(random_key, (), user_sealing_key) && may_derive(
                derive_key,
                user_id@,
                DerivationPolicy::SignerScoped,
                pepper,
            ) && result_view(r) == #[trigger] seal_outcome(
                user_id@,
                user_data@,
                user_sealing_key@,
                pepper,
            ),
{
    let user_sealing_key = random_key();
    let sealed_data = match seal(user_data, user_sealing_key.clone(), new_fixed_nonce(), user_id) {
        Ok(sealed_data) => sealed_data,
        Err(_) => { return Err(SealError::CryptoError); },
    };
    let pepper = derive_key(new_pepper(user_id));
    let ghost answered = pepper;
    let r = match pepper {
        Err(_) => Err(SealError::DerivationError),
        Ok(enclave_key) => match seal_sealing_key(user_id, &user_sealing_key, enclave_key) {
            Ok(sealed_key) => Ok(
                SealedUserData {
                    user_id: into_boxed_slice(slice_to_vec(user_id)),
                    user_data: sealed_data,
                    user_sealing_key: sealed_key,
                },
            ),
            Err(_) => Err(SealError::CryptoError),
        },
    };
    assert(result_view(r) == seal_outcome(user_id@, user_data@, user_sealing_key@, answered));
    r
}

/// Open what [`safe_seal_user_data`] sealed.
///
/// The pepper of the user named in `sealed` is asked of `derive_key`; then
/// the sealing key is opened with it, and the data with the sealing key.
pub fn safe_unseal_user_data<D>(derive_key: D, sealed: &SealedUserData) -> (r: Result<
    SecretBytes,
    SealError,
>) where D: FnOnce(KeyRequest) -> Result<SecretKey, DerivationError>
    requires
        forall|request: KeyRequest|
            request@ == (sealed.user_id@, DerivationPolicy::SignerScoped) ==> call_requires(
                derive_key,
                (request,),
            ),
    ensures
        exists|pepper: Result<SecretKey, DerivationError>|
            may_derive(derive_key, sealed.user_id@, DerivationPolicy::SignerScoped, pepper)
                && result_view(r) == #[trigger] unseal_outcome(sealed@, pepper),
        forall|user_data: Seq<u8>, user_sealing_key: Seq<u8>, pepper: Seq<u8>|
            user_sealing_key.len() == KEY_SIZE && derives_only(
                derive_key,
                sealed.user_id@,
                DerivationPolicy::SignerScoped,
                pepper,
            ) && #[trigger] seal_user_data_spec(
                sealed.user_id@,
                user_data,
                user_sealing_key,
                pepper,
            ) == Some((sealed.user_data@, sealed.user_sealing_key@)) ==> r is Ok && r.unwrap()@
                == user_data,
{
    let pepper = derive_key(new_pepper(&sealed.user_id));
    let ghost answered = pepper;
    let r = match pepper {
        Err(_) => Err(SealError::DerivationError),
        Ok(enclave_key) => match unseal_user_data(
            &sealed.user_id,
            &sealed.user_data,
            sealed.user_sealing_key.as_slice(),
            enclave_key,
        ) {
            Ok(user_data) => Ok(user_data),
            Err(_) => Err(SealError::CryptoError),
        },
    };
    assert(result_view(r) == unseal_outcome(sealed@, answered));
    assert(may_derive(derive_key, sealed.user_id@, DerivationPolicy::SignerScoped, answered));
    r
}

} // verus!
