//! Argon2 password hashing in the PHC string format, as provided by `argon2`
//! and `password_hash`.
//!
//! Nothing in this module is proved: it states what the rest of the crate
//! takes for granted about the hash function and its encoding.

use argon2::{Algorithm, Argon2, Params, Version};
use password_hash::rand_core::OsRng;
use password_hash::{Encoding, PasswordHashString, PasswordHasher, PasswordVerifier, SaltString};
use vstd::prelude::*;

verus! {

/// The error of `password_hash`.
#[verifier::external_type_specification]
#[verifier::external_body]
pub struct ExPasswordHashError(password_hash::Error);

/// The PHC string that `PasswordHasher::hash_password` computes for
/// `password` and the B64-encoded `salt`, in an Argon2 context of the default
/// algorithm and version, keyed with `secret`, with the given costs; nothing
/// where the context cannot be built or the hash function rejects its input.
pub uninterp spec fn argon2_phc(
    secret: Seq<u8>,
    m_cost: u32,
    t_cost: u32,
    p_cost: u32,
    password: Seq<u8>,
    salt: Seq<char>,
) -> Option<Seq<char>>;

/// Whether `PasswordHashString::parse` accepts `s` in the B64 encoding.
pub uninterp spec fn is_phc_string(s: Seq<char>) -> bool;

/// What `PasswordVerifier::verify_password` decides of `password` against the
/// PHC string `record`, in an Argon2 context keyed with `secret`: whether the
/// hash recomputed from the record's own parameters and salt equals the
/// record's; nothing where the context cannot be built, the record does not
/// parse, or the hash cannot be recomputed.
pub uninterp spec fn argon2_verdict(
    secret: Seq<u8>,
    m_cost: u32,
    t_cost: u32,
    p_cost: u32,
    password: Seq<u8>,
    record: Seq<char>,
) -> Option<bool>;

/// Calls `SaltString::generate` with the operating system's random number
/// generator.
///
/// Trusted: the salt is the B64 encoding of 16 bytes, which has 22 characters.
/// Nothing is said of which salt it is.
#[verifier::external_body]
pub(crate) fn random_salt() -> (salt: String)
    ensures
        salt@.len() == 22,
{
    SaltString::generate(&mut OsRng).as_str().to_owned()
}

/// Calls `PasswordHasher::hash_password` in a new Argon2 context and
/// serializes the result.
///
/// Trusted: the outcome is a function of the arguments alone, and a
/// serialized hash parses again.
#[verifier::external_body]
pub(crate) fn hash_to_phc(
    secret: &[u8],
    m_cost: u32,
    t_cost: u32,
    p_cost: u32,
    password: &[u8],
    salt: &str,
) -> (r: Result<String, password_hash::Error>)
    ensures
        r matches Ok(record) ==> argon2_phc(secret@, m_cost, t_cost, p_cost, password@, salt@)
            == Some(record@) && is_phc_string(record@),
        r is Err ==> argon2_phc(secret@, m_cost, t_cost, p_cost, password@, salt@) is None,
{
    let params = Params::new(m_cost, t_cost, p_cost, None)?;
    let context = Argon2::new_with_secret(secret, Algorithm::default(), Version::default(), params)?;
    Ok(context.hash_password(password, salt)?.serialize().as_str().to_owned())
}

/// Calls `PasswordHashString::parse` and says whether it succeeded.
#[verifier::external_body]
pub(crate) fn parses_as_phc(s: &str) -> (ok: bool)
    ensures
        ok == is_phc_string(s@),
{
    PasswordHashString::parse(s, Encoding::B64).is_ok()
}

/// Calls `PasswordVerifier::verify_password` in a new Argon2 context, on the
/// parsed record. A mismatch, which the call reports as the error `Password`,
/// comes back as `Ok(false)`.
///
/// Trusted: the outcome is a function of the arguments alone, and a password
/// verifies against every record that hashing made of it in a context of the
/// same secret and costs.
#[verifier::external_body]
pub(crate) fn verify_against_phc(
    secret: &[u8],
    m_cost: u32,
    t_cost: u32,
    p_cost: u32,
    password: &[u8],
    record: &str,
) -> (r: Result<bool, password_hash::Error>)
    ensures
        r matches Ok(same) ==> argon2_verdict(secret@, m_cost, t_cost, p_cost, password@, record@)
            == Some(same),
        r is Err ==> argon2_verdict(secret@, m_cost, t_cost, p_cost, password@, record@) is None,
        forall|salt: Seq<char>| #[trigger]
            argon2_phc(secret@, m_cost, t_cost, p_cost, password@, salt) == Some(record@) ==> r
                matches Ok(true),
{
    let params = Params::new(m_cost, t_cost, p_cost, None)?;
    let context = Argon2::new_with_secret(secret, Algorithm::default(), Version::default(), params)?;
    let parsed = PasswordHashString::parse(record, Encoding::B64)?;
    match context.verify_password(password, &parsed.password_hash()) {
        Ok(()) => Ok(true),
        Err(password_hash::Error::Password) => Ok(false),
        Err(fault) => Err(fault),
    }
}

} // verus!
