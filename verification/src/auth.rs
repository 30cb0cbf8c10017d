//! Password authentication: hashing a password into a self-describing record
//! and verifying a password against such a record.
//!
//! Passwords are hashed with Argon2, salted per record and keyed with a
//! pepper that only the trusted environment can derive.

use crate::derivation::{
    derives_only, may_derive, new_pepper, DerivationError, DerivationPolicy, KeyRequest,
};
use crate::phc::{
    argon2_phc, argon2_verdict, hash_to_phc, is_phc_string, parses_as_phc, random_salt,
    verify_against_phc,
};
use crate::sealing::{CryptoError, SecretKey};
use vstd::prelude::*;
use vstd::string::StringSliceAdditionalSpecFns;

verus! {

/// Length of the encoding of a 16 byte salt.
pub const SALT_LENGTH: usize = 22;

/// Length in bytes of an encoded password hash. It follows from the costs
/// below, the salt length above and the length of the hash output: where any
/// of them changes, this changes with it.
pub const HASH_STRING_LENGTH: usize = 97;

/// Argon2 memory cost in KiB.
pub const M_COST_KIB: u32 = 19 * 1024;

/// Argon2 time cost: the number of passes over the memory.
pub const T_COST: u32 = 3;

/// Argon2 degree of parallelism.
pub const P_COST: u32 = 1;

/// The outcome of a verification.
#[derive(Debug, Clone, Copy, PartialEq, Eq, PartialOrd, Ord, Structural)]
pub enum VerifyPasswordStatus {
    PasswordVerified,
    InvalidPassword,
}

/// Why a password was neither hashed nor verified.
#[derive(Debug, Clone, Copy, PartialEq, Eq, Structural)]
pub enum AuthError {
    /// The user identifier is empty.
    EmptyUserId,
    /// The password is empty.
    EmptyPassword,
    /// The supplied hash is not a valid PHC hash string.
    InvalidHashString,
    /// The hardware key source is unavailable.
    DerivationError,
    /// The hash function failed for a reason other than a wrong password.
    CryptoError,
}

/// An Argon2 context: the pepper that keys the hash function, and its costs.
struct HashContext<'key> {
    pepper: &'key SecretKey,
    m_cost: u32,
    t_cost: u32,
    p_cost: u32,
}

/// The context in which every password of this crate is hashed.
fn new_hash_context(pepper: &SecretKey) -> (context: HashContext<'_>)
    ensures
        context.pepper@ == pepper@,
        context.m_cost == M_COST_KIB,
        context.t_cost == T_COST,
        context.p_cost == P_COST,
{
    // The costs are, respectively, the maximum between the default of the
    // Argon2 implementation and the value that OWASP's password storage
    // cheat sheet recommends.
    HashContext { pepper, m_cost: M_COST_KIB, t_cost: T_COST, p_cost: P_COST }
}

/// Number of bytes in the UTF-8 encoding of `s`.
pub open spec fn encoded_len(s: Seq<char>) -> nat {
    vstd::utf8::encode_utf8(s).len()
}

/// The record of `password` under `salt` and `pepper`: the PHC string that
/// Argon2 computes, provided it has the fixed length.
pub open spec fn hash_password_spec(password: Seq<u8>, salt: Seq<char>, pepper: Seq<u8>) -> Option<
    Seq<char>,
> {
    match argon2_phc(pepper, M_COST_KIB, T_COST, P_COST, password, salt) {
        Some(record) => if encoded_len(record) == HASH_STRING_LENGTH {
            Some(record)
        } else {
            None
        },
        None => None,
    }
}

/// What verifying `password` against `stored` under `pepper` gives.
pub open spec fn verify_password_spec(
    password: Seq<u8>,
    stored: Seq<char>,
    pepper: Seq<u8>,
) -> Result<VerifyPasswordStatus, CryptoError> {
    match argon2_verdict(pepper, M_COST_KIB, T_COST, P_COST, password, stored) {
        Some(true) => Ok(VerifyPasswordStatus::PasswordVerified),
        Some(false) => Ok(VerifyPasswordStatus::InvalidPassword),
        None => Err(CryptoError),
    }
}

/// Compute the password hash of `password` with the given salt, keyed with
/// `pepper`.
///
/// A record that comes back has [`HASH_STRING_LENGTH`] bytes and parses as a
/// PHC string.
pub fn hash_password(password: &[u8], salt: &str, pepper: &SecretKey) -> (r: Result<
    String,
    CryptoError,
>)
    ensures
        r matches Ok(record) ==> hash_password_spec(password@, salt@, pepper@) == Some(record@),
        r is Err ==> hash_password_spec(password@, salt@, pepper@) is None,
        r matches Ok(record) ==> encoded_len(record@) == HASH_STRING_LENGTH && is_phc_string(
            record@,
        ),
{
    let context = new_hash_context(pepper);
    match hash_to_phc(
        context.pepper.as_bytes().as_slice(),
        context.m_cost,
        context.t_cost,
        context.p_cost,
        password,
        salt,
    ) {
        Ok(record) => {
            if record.as_str().as_bytes().len() == HASH_STRING_LENGTH {
                Ok(record)
            } else {
                Err(CryptoError)
            }
        },
        Err(_) => Err(CryptoError),
    }
}

/// Verify `password` against a stored record, keyed with `pepper`.
///
/// A wrong password is no error: it gives `InvalidPassword`. A password
/// verifies against every record that [`hash_password`] made of it under the
/// same pepper.
pub fn verify_password(password: &[u8], stored_hash_string: &str, pepper: &SecretKey) -> (r: Result<
    VerifyPasswordStatus,
    CryptoError,
>)
    requires
        is_phc_string(stored_hash_string@),
    ensures
        r == verify_password_spec(password@, stored_hash_string@, pepper@),
        forall|salt: Seq<char>| #[trigger]
            hash_password_spec(password@, salt, pepper@) == Some(stored_hash_string@) ==> r == Ok::<
                VerifyPasswordStatus,
                CryptoError,
            >(VerifyPasswordStatus::PasswordVerified),
{
    let context = new_hash_context(pepper);
    let verdict = verify_against_phc(
        context.pepper.as_bytes().as_slice(),
        context.m_cost,
        context.t_cost,
        context.p_cost,
        password,
        stored_hash_string,
    );
    assert forall|salt: Seq<char>| #[trigger]
        hash_password_spec(password@, salt, pepper@) == Some(
            stored_hash_string@,
        ) implies verdict matches Ok(true) by {
        assert(argon2_phc(pepper@, M_COST_KIB, T_COST, P_COST, password@, salt) == Some(
            stored_hash_string@,
        ));
    }
    match verdict {
        Ok(true) => Ok(VerifyPasswordStatus::PasswordVerified),
        Ok(false) => Ok(VerifyPasswordStatus::InvalidPassword),
        Err(_) => Err(CryptoError),
    }
}


/// What is decided of a request to hash before any work is done: an empty
/// user identifier or password is rejected; otherwise the pepper of the user
/// is to be derived.
pub open spec fn hash_request_spec(user_id: Seq<u8>, password: Seq<char>) -> Result<
    (Seq<u8>, DerivationPolicy),
    AuthError,
> {
    if user_id.len() == 0 {
        Err(AuthError::EmptyUserId)
    } else if password.len() == 0 {
        Err(AuthError::EmptyPassword)
    } else {
        Ok((user_id, DerivationPolicy::SignerScoped))
    }
}

/// What is decided of a request to verify before any secret is touched: the
/// format of the record comes first, whatever the other arguments hold; then
/// the arguments are checked as for hashing.
pub open spec fn verify_request_spec(
    user_id: Seq<u8>,
    password: Seq<char>,
    stored: Seq<char>,
) -> Result<(Seq<u8>, DerivationPolicy), AuthError> {
    if !is_phc_string(stored) {
        Err(AuthError::InvalidHashString)
    } else {
        hash_request_spec(user_id, password)
    }
}

/// A result with the request taken by its view.
pub open spec fn request_view(r: Result<KeyRequest, AuthError>) -> Result<
    (Seq<u8>, DerivationPolicy),
    AuthError,
> {
    match r {
        Ok(request) => Ok(request@),
        Err(e) => Err(e),
    }
}

/// Checks the arguments of a request to hash, and says which key must be
/// derived to serve it.
pub fn hash_request(user_id: &[u8], password: &str) -> (r: Result<KeyRequest, AuthError>)
    ensures
        request_view(r) == hash_request_spec(user_id@, password@),
{
    if user_id.len() == 0 {
        return Err(AuthError::EmptyUserId);
    }
    if password.is_empty() {
        return Err(AuthError::EmptyPassword);
    }
    Ok(new_pepper(user_id))
}

/// Checks the record and the arguments of a request to verify, and says which
/// key must be derived to serve it.
pub fn verify_request(user_id: &[u8], password: &str, stored_hash_string: &str) -> (r: Result<
    KeyRequest,
    AuthError,
>)
    ensures
        request_view(r) == verify_request_spec(user_id@, password@, stored_hash_string@),
        !is_phc_string(stored_hash_string@) ==> r matches Err(AuthError::InvalidHashString),
        r is Ok ==> is_phc_string(stored_hash_string@),
{
    if !parses_as_phc(stored_hash_string) {
        return Err(AuthError::InvalidHashString);
    }
    hash_request(user_id, password)
}

/// What hashing gives once the hardware key source has answered: its failure,
/// or the record under the derived pepper.
pub open spec fn hash_outcome(
    pepper: Result<SecretKey, DerivationError>,
    password: Seq<u8>,
    salt: Seq<char>,
) -> Result<Seq<char>, AuthError> {
    match pepper {
        Err(_) => Err(AuthError::DerivationError),
        Ok(key) => match hash_password_spec(password, salt, key@) {
            Some(record) => Ok(record),
            None => Err(AuthError::CryptoError),
        },
    }
}

/// What verification gives once the hardware key source has answered: its
/// failure, or the verdict under the derived pepper.
pub open spec fn verify_outcome(
    pepper: Result<SecretKey, DerivationError>,
    password: Seq<u8>,
    stored: Seq<char>,
) -> Result<VerifyPasswordStatus, AuthError> {
    match pepper {
        Err(_) => Err(AuthError::DerivationError),
        Ok(key) => match verify_password_spec(password, stored, key@) {
            Ok(status) => Ok(status),
            Err(_) => Err(AuthError::CryptoError),
        },
    }
}

/// A result with the record taken by its view.
pub open spec fn record_view(r: Result<String, AuthError>) -> Result<Seq<char>, AuthError> {
    match r {
        Ok(record) => Ok(record@),
        Err(e) => Err(e),
    }
}

/// Compute a new password hash for the user `user_id`.
///
/// An empty user identifier or password is rejected before anything else is
/// done. Then a fresh salt is drawn, the pepper of the user is asked of
/// `derive_key`, and the password is hashed under both.
pub fn safe_hash_password<D>(derive_key: D, user_id: &[u8], password: &str) -> (r: Result<
    String,
    AuthError,
>) where D: FnOnce(KeyRequest) -> Result<SecretKey, DerivationError>
    requires
        forall|request: KeyRequest|
            request@ == (user_id@, DerivationPolicy::SignerScoped) ==> call_requires(
                derive_key,
                (request,),
            ),
    ensures
        match hash_request_spec(user_id@, password@) {
            Err(e) => r == Err::<String, AuthError>(e),
            Ok((key_id, policy)) => exists|
                salt: Seq<char>,
                pepper: Result<SecretKey, DerivationError>,
            |
                salt.len() == SALT_LENGTH && may_derive(derive_key, key_id, policy, pepper)
                    && record_view(r) == #[trigger] hash_outcome(
                    pepper,
                    password.spec_bytes(),
                    salt,
                ),
        },
        r matches Ok(record) ==> encoded_len(record@) == HASH_STRING_LENGTH && is_phc_string(
            record@,
        ),
{
    let request = match hash_request(user_id, password) {
        Ok(request) => request,
        Err(e) => { return Err(e); },
    };
    let salt = random_salt();
    let pepper = derive_key(request);
    let r = match &pepper {
        Err(_) => Err(AuthError::DerivationError),
        Ok(key) => match hash_password(password.as_bytes(), salt.as_str(), key) {
            Ok(record) => Ok(record),
            Err(_) => Err(AuthError::CryptoError),
        },
    };
    assert(record_view(r) == hash_outcome(pepper, password.spec_bytes(), salt@));
    r
}

/// Verify a user-supplied password against a stored record.
///
/// The record's format is checked first, whatever the other arguments hold;
/// then an empty user identifier or password is rejected; then the pepper of
/// the user is asked of `derive_key` and the password is compared.
///
/// Where `derive_key` answers the request for the pepper of a user with one
/// key only, a password verifies against every record that hashing made of
/// it for that user.
pub fn safe_verify_password<D>(
    derive_key: D,
    user_id: &[u8],
    password: &str,
    stored_hash_string: &str,
) -> (r: Result<VerifyPasswordStatus, AuthError>) where
    D: FnOnce(KeyRequest) -> Result<SecretKey, DerivationError>,

    requires
        forall|request: KeyRequest|
            request@ == (user_id@, DerivationPolicy::SignerScoped) ==> call_requires(
                derive_key,
                (request,),
            ),
    ensures
        !is_phc_string(stored_hash_string@) ==> r == Err::<VerifyPasswordStatus, AuthError>(
            AuthError::InvalidHashString,
        ),
        match verify_request_spec(user_id@, password@, stored_hash_string@) {
            Err(e) => r == Err::<VerifyPasswordStatus, AuthError>(e),
            Ok((key_id, policy)) => exists|pepper: Result<SecretKey, DerivationError>|
                may_derive(derive_key, key_id, policy, pepper) && r == #[trigger] verify_outcome(
                    pepper,
                    password.spec_bytes(),
                    stored_hash_string@,
                ),
        },
        forall|salt: Seq<char>, pepper: Seq<u8>|
            verify_request_spec(user_id@, password@, stored_hash_string@) is Ok && derives_only(
                derive_key,
                user_id@,
                DerivationPolicy::SignerScoped,
                pepper,
            ) && #[trigger] hash_password_spec(password.spec_bytes(), salt, pepper) == Some(
                stored_hash_string@,
            ) ==> r == Ok::<VerifyPasswordStatus, AuthError>(
                VerifyPasswordStatus::PasswordVerified,
            ),
{
    let request = match verify_request(user_id, password, stored_hash_string) {
        Ok(request) => request,
        Err(e) => { return Err(e); },
    };
    let pepper = derive_key(request);
    let r = match &pepper {
        Err(_) => Err(AuthError::DerivationError),
        Ok(key) => match verify_password(password.as_bytes(), stored_hash_string, key) {
            Ok(status) => Ok(status),
            Err(_) => Err(AuthError::CryptoError),
        },
    };
    assert(r == verify_outcome(pepper, password.spec_bytes(), stored_hash_string@));
    assert(may_derive(derive_key, user_id@, DerivationPolicy::SignerScoped, pepper));
    r
}

} // verus!
