//! Requests to the hardware key source of the trusted environment.
//!
//! Keys are derived by the environment, never by this crate: the crate says
//! which key it needs and is handed the outcome.

use crate::sealing::SecretKey;
use vstd::prelude::*;
use vstd::slice::slice_to_vec;

verus! {

/// The domain in which a derived key can be reproduced.
#[derive(Debug, Clone, Copy, PartialEq, Eq, Structural)]
pub enum DerivationPolicy {
    /// Any build signed by the same signing identity derives the same key.
    SignerScoped,
    /// Only the exact build that derived the key derives it again.
    InstanceScoped,
}

/// The hardware key source is unavailable.
#[derive(Debug, Clone, Copy, PartialEq, Eq, Structural)]
pub struct DerivationError;

/// What to ask of the hardware key source: a key identifier and the policy
/// under which the key is derived.
#[derive(Debug)]
pub struct KeyRequest {
    key_id: Vec<u8>,
    policy: DerivationPolicy,
}

impl View for KeyRequest {
    type V = (Seq<u8>, DerivationPolicy);

    closed spec fn view(&self) -> (Seq<u8>, DerivationPolicy) {
        (self.key_id@, self.policy)
    }
}

impl KeyRequest {
    pub fn new(key_id: &[u8], policy: DerivationPolicy) -> (r: KeyRequest)
        ensures
            r@ == (key_id@, policy),
    {
        KeyRequest { key_id: slice_to_vec(key_id), policy }
    }

    pub fn key_id(&self) -> (id: &[u8])
        ensures
            id@ == self@.0,
    {
        self.key_id.as_slice()
    }

    pub fn policy(&self) -> (policy: DerivationPolicy)
        ensures
            policy == self@.1,
    {
        self.policy
    }
}

/// The request for the pepper of `user_id`: keyed on the user identifier and
/// signer-scoped, so that it survives an upgrade of the build.
pub fn new_pepper(user_id: &[u8]) -> (r: KeyRequest)
    ensures
        r@ == (user_id@, DerivationPolicy::SignerScoped),
{
    KeyRequest::new(user_id, DerivationPolicy::SignerScoped)
}

/// `outcome` is something that `derive_key` may answer to a request for the
/// key `key_id` under `policy`.
pub open spec fn may_derive<D: FnOnce(KeyRequest) -> Result<SecretKey, DerivationError>>(
    derive_key: D,
    key_id: Seq<u8>,
    policy: DerivationPolicy,
    outcome: Result<SecretKey, DerivationError>,
) -> bool {
    exists|request: KeyRequest| #[trigger]
        call_ensures(derive_key, (request,), outcome) && request@ == (key_id, policy)
}

/// `derive_key` answers a request for the key `key_id` under `policy` with
/// the key `key` and with nothing else: it is deterministic on that request,
/// and does not fail on it.
pub open spec fn derives_only<D: FnOnce(KeyRequest) -> Result<SecretKey, DerivationError>>(
    derive_key: D,
    key_id: Seq<u8>,
    policy: DerivationPolicy,
    key: Seq<u8>,
) -> bool {
    forall|outcome: Result<SecretKey, DerivationError>| #[trigger]
        may_derive(derive_key, key_id, policy, outcome) ==> (outcome matches Ok(derived)
            && derived@ == key)
}

} // verus!
