//! Protection of user secrets inside a trusted execution environment.
//!
//! The crate authenticates passwords without keeping them in a form from
//! which they could be recovered, and seals user data so that only the same
//! environment can open it again.
//!
//! - [`sealing`] encrypts and authenticates a buffer together with associated
//!   data, and opens what it sealed.
//! - [`derivation`] names the keys that the crate asks of the hardware key
//!   source. The crate never derives a key itself: the caller hands it the
//!   means to ask.
//! - [`auth`] hashes a password into a record of fixed length, and verifies a
//!   password against such a record.
//! - [`user_data`] seals user data under a fresh key, and that key under a
//!   key of the environment.
//! - [`aead`] and [`phc`] state what is taken for granted of the cipher and
//!   of the password hash function.

pub mod aead;
pub mod auth;
pub mod derivation;
pub mod phc;
pub mod sealing;
pub mod user_data;
