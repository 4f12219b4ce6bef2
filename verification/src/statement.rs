//! What a spend proof is about: the public inputs that it is verified
//! against, and the proof as it was submitted.

use crate::nullifier::Nullifier;
use vstd::prelude::*;

verus! {

/// A root of the note commitment tree at some earlier height.
#[derive(Clone, Copy, Debug, PartialEq, Eq)]
pub struct Anchor(pub [u8; 32]);

/// A commitment to the value that an action adds or removes.
#[derive(Clone, Copy, Debug, PartialEq, Eq)]
pub struct BalanceCommitment(pub [u8; 32]);

/// A randomized spend verification key, as its 32-byte encoding.
#[derive(Clone, Copy, Debug, PartialEq, Eq)]
pub struct SpendVerificationKey(pub [u8; 32]);

/// A zero-knowledge proof as it was submitted. Only the proof verifier looks
/// inside.
#[derive(Clone, Debug, PartialEq, Eq)]
pub struct SpendProof(pub Vec<u8>);

/// The public inputs of a spend proof.
#[derive(Clone, Copy, Debug, PartialEq, Eq)]
pub struct ProofStatement {
    pub anchor: Anchor,
    pub balance_commitment: BalanceCommitment,
    pub nullifier: Nullifier,
    pub rk: SpendVerificationKey,
}

} // verus!
