//! The proof verifier: a Groth16 verification key, fixed when the verifier is
//! made, and the check of a spend proof against the public inputs of its
//! statement.

use crate::statement::{ProofStatement, SpendProof};
use ark_groth16::{prepare_verifying_key, Groth16, Proof, VerifyingKey};
use ark_serialize::CanonicalDeserialize;
use decaf377::{Bls12_377, Encoding, Fq};
use vstd::prelude::*;

verus! {

/// What the Groth16 verifier over BLS12-377 says of `proof` for the public
/// `inputs` under the verification key `key`, all in their compressed
/// encodings: `None` where it gives no answer, as when one of them is no
/// encoding or the number of inputs is not that of the key, and otherwise
/// whether the proof verifies.
pub uninterp spec fn groth16_verification(key: Seq<u8>, inputs: Seq<Seq<u8>>, proof: Seq<u8>) -> Option<bool>;

/// Whether `encoding` is the encoding of an element of the decaf377 group.
pub uninterp spec fn decaf377_decodes(encoding: Seq<u8>) -> bool;

/// Reads the key and the proof with `CanonicalDeserialize::deserialize_compressed`
/// and each of the four inputs with `Fq::from_bytes_checked`, and calls
/// `Groth16::verify_proof` of ark-groth16 with the key prepared by
/// `prepare_verifying_key`. The contract only gives the answer its name: it
/// is a function of the bytes handed in.
#[verifier::external_body]
fn groth16_verify(key: &[u8], inputs: &[[u8; 32]; 4], proof: &[u8]) -> (verified: Option<bool>)
    ensures
        verified == groth16_verification(key@, inputs.deep_view(), proof@),
{
    let key = VerifyingKey::<Bls12_377>::deserialize_compressed(key).ok()?;
    let proof = Proof::<Bls12_377>::deserialize_compressed(proof).ok()?;
    let first = Fq::from_bytes_checked(&inputs[0]).ok()?;
    let second = Fq::from_bytes_checked(&inputs[1]).ok()?;
    let third = Fq::from_bytes_checked(&inputs[2]).ok()?;
    let fourth = Fq::from_bytes_checked(&inputs[3]).ok()?;
    let inputs = [first, second, third, fourth];
    Groth16::<Bls12_377>::verify_proof(&prepare_verifying_key(&key), &proof, &inputs).ok()
}

/// Calls `Encoding::vartime_decompress` of decaf377 and says whether it gave
/// an element.
#[verifier::external_body]
fn element_decodes(encoding: &[u8; 32]) -> (decodes: bool)
    ensures
        decodes == decaf377_decodes(encoding@),
{
    Encoding(*encoding).vartime_decompress().is_ok()
}

/// The public inputs of a statement as the verifier takes them: the anchor,
/// the balance commitment, the nullifier and the key, each as one field
/// element in its 32-byte encoding.
pub open spec fn public_inputs(statement: ProofStatement) -> Seq<Seq<u8>> {
    seq![
        statement.anchor.0@,
        statement.balance_commitment.0@,
        statement.nullifier.0@,
        statement.rk.0@,
    ]
}

/// Whether `proof` is accepted for `statement` under the verification key
/// `key`: the balance commitment and the key of the statement are group
/// elements, and the proof verifies for the statement's public inputs.
pub open spec fn proof_accepted(key: Seq<u8>, statement: ProofStatement, proof: Seq<u8>) -> bool {
    &&& decaf377_decodes(statement.balance_commitment.0@)
    &&& decaf377_decodes(statement.rk.0@)
    &&& groth16_verification(key, public_inputs(statement), proof) == Some(true)
}

/// Decides the verification from what the three outside checks said, in the
/// order in which they are made.
pub fn verification_verdict(
    commitment_decodes: bool,
    key_decodes: bool,
    verified: Option<bool>,
) -> (accepted: bool)
    ensures
        accepted == (commitment_decodes && key_decodes && verified == Some(true)),
{
    commitment_decodes && key_decodes && match verified {
        Some(verified) => verified,
        None => false,
    }
}

/// A proof verifier. Its verification key is set once and is the same for
/// every proof it is asked about.
pub struct ProofVerifier {
    key: Vec<u8>,
}

impl ProofVerifier {
    /// The verification key, in its compressed encoding.
    pub closed spec fn key(&self) -> Seq<u8> {
        self.key@
    }

    /// Whether this verifier accepts `proof` for `statement`.
    pub open spec fn accepts(&self, statement: ProofStatement, proof: Seq<u8>) -> bool {
        proof_accepted(self.key(), statement, proof)
    }

    /// A verifier for the verification key with the compressed encoding
    /// `key`.
    pub fn new(key: Vec<u8>) -> (verifier: ProofVerifier)
        ensures
            verifier.key() == key@,
    {
        ProofVerifier { key }
    }

    /// Verifies `proof` against the public inputs of `statement`. Whatever is
    /// wrong with the key, the statement or the proof, the proof is
    /// rejected; it is accepted only if it verifies.
    pub fn verify(&self, statement: &ProofStatement, proof: &SpendProof) -> (accepted: bool)
        ensures
            accepted == self.accepts(*statement, proof.0@),
    {
        let inputs = [
            statement.anchor.0,
            statement.balance_commitment.0,
            statement.nullifier.0,
            statement.rk.0,
        ];
        assert(inputs.deep_view() =~~= public_inputs(*statement));
        let commitment_decodes = element_decodes(&statement.balance_commitment.0);
        let key_decodes = element_decodes(&statement.rk.0);
        let verified = groth16_verify(self.key.as_slice(), &inputs, proof.0.as_slice());
        verification_verdict(commitment_decodes, key_decodes, verified)
    }
}

} // verus!
