//! Spend authorization signatures.

use decaf377_rdsa::{Signature, SpendAuth, VerificationKey};
use vstd::prelude::*;

verus! {

/// What the verification of `signature` over `message` under the key encoded
/// by `rk` gives: `None` where `rk` encodes no key, and otherwise whether the
/// signature is a valid spend authorization signature under that key.
pub uninterp spec fn rdsa_verification(rk: Seq<u8>, message: Seq<u8>, signature: Seq<u8>) -> Option<bool>;

/// Decodes `rk` with `VerificationKey::<SpendAuth>::try_from` and checks
/// `signature` over `message` with `VerificationKey::verify` of decaf377-rdsa.
/// The contract only gives the answer its name: it is a function of the three
/// byte strings, and nothing is claimed about which answer they get.
#[verifier::external_body]
pub(crate) fn rdsa_verify(rk: &[u8; 32], message: &[u8], signature: &[u8; 64]) -> (verified:
    Option<bool>)
    ensures
        verified == rdsa_verification(rk@, message@, signature@),
{
    match VerificationKey::<SpendAuth>::try_from(*rk) {
        Ok(key) => Some(key.verify(message, &Signature::from(*signature)).is_ok()),
        Err(_) => None,
    }
}

/// Whether `signature` authorizes `message` under `rk`: the key decodes and
/// the signature verifies under it.
pub open spec fn spend_auth_verifies(rk: Seq<u8>, message: Seq<u8>, signature: Seq<u8>) -> bool {
    rdsa_verification(rk, message, signature) == Some(true)
}

/// Whether `signature` authorizes `message` under `rk`. A key that does not
/// decode authorizes nothing.
pub fn verify_spend_auth(rk: &[u8; 32], message: &[u8], signature: &[u8; 64]) -> (valid: bool)
    ensures
        valid == spend_auth_verifies(rk@, message@, signature@),
{
    match rdsa_verify(rk, message, signature) {
        Some(valid) => valid,
        None => false,
    }
}

} // verus!
