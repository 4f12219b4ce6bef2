use ark_groth16::{Groth16, ProvingKey};
use ark_relations::r1cs::{
    ConstraintSynthesizer, ConstraintSystemRef, LinearCombination, SynthesisError, Variable,
};
use ark_serialize::CanonicalSerialize;
use decaf377::{Bls12_377, Element, Encoding, Fq, Fr};
use decaf377_rdsa::{SigningKey, SpendAuth, VerificationKey};
use rand_core::OsRng;
use shielded_pool::groth16::{verification_verdict, ProofVerifier};
use shielded_pool::nullifier::Nullifier;
use shielded_pool::spend::SpendBody;
use shielded_pool::statement::{
    Anchor, BalanceCommitment, ProofStatement, SpendProof, SpendVerificationKey,
};

/// A relation with the four public inputs of a spend: their sum is known to
/// the prover.
struct FourInputs {
    inputs: [Fq; 4],
}

impl ConstraintSynthesizer<Fq> for FourInputs {
    fn generate_constraints(self, cs: ConstraintSystemRef<Fq>) -> Result<(), SynthesisError> {
        let mut sum = LinearCombination::<Fq>::zero();
        let mut total = Fq::ZERO;
        for value in self.inputs {
            let input = cs.new_input_variable(|| Ok(value))?;
            sum = sum + (Fq::ONE, input);
            total = total + value;
        }
        let witness = cs.new_witness_variable(|| Ok(total))?;
        cs.enforce_constraint(
            sum,
            LinearCombination::from(Variable::One),
            LinearCombination::from(witness),
        )
    }
}

fn setup() -> (ProvingKey<Bls12_377>, ProofVerifier) {
    let circuit = FourInputs { inputs: [Fq::ZERO; 4] };
    let pk = Groth16::<Bls12_377>::generate_random_parameters_with_reduction(circuit, &mut OsRng)
        .expect("the relation has a key");
    let mut key = Vec::new();
    pk.vk.serialize_compressed(&mut key).expect("a key has an encoding");
    (pk, ProofVerifier::new(key))
}

fn prove(pk: &ProvingKey<Bls12_377>, statement: &ProofStatement) -> SpendProof {
    let inputs = [
        Fq::from_bytes_checked(&statement.anchor.0).expect("the anchor is a field element"),
        Fq::from_bytes_checked(&statement.balance_commitment.0)
            .expect("the commitment is a field element"),
        Fq::from_bytes_checked(&statement.nullifier.0).expect("the nullifier is a field element"),
        Fq::from_bytes_checked(&statement.rk.0).expect("the key is a field element"),
    ];
    let proof = Groth16::<Bls12_377>::create_random_proof_with_reduction(
        FourInputs { inputs },
        pk,
        &mut OsRng,
    )
    .expect("the relation holds of every input");
    let mut bytes = Vec::new();
    proof.serialize_compressed(&mut bytes).expect("a proof has an encoding");
    SpendProof(bytes)
}

fn signing_key(seed: u8) -> SigningKey<SpendAuth> {
    let mut bytes = [0u8; 32];
    bytes[0] = seed;
    SigningKey::try_from(bytes).expect("a small scalar is a signing key")
}

fn anchor(n: u64) -> Anchor {
    Anchor(Fq::from(n).to_bytes())
}

fn nullifier(n: u64) -> Nullifier {
    Nullifier(Fq::from(n).to_bytes())
}

fn commitment(n: u64) -> BalanceCommitment {
    BalanceCommitment((Element::GENERATOR * Fr::from(n)).vartime_compress().0)
}

fn body(seed: u8, n: u64) -> SpendBody {
    SpendBody {
        balance_commitment: commitment(9),
        nullifier: nullifier(n),
        rk: SpendVerificationKey(VerificationKey::from(&signing_key(seed)).to_bytes()),
    }
}

fn statement(seed: u8, n: u64, anchor_value: u64) -> ProofStatement {
    let body = body(seed, n);
    ProofStatement {
        anchor: anchor(anchor_value),
        balance_commitment: body.balance_commitment,
        nullifier: body.nullifier,
        rk: body.rk,
    }
}

#[test]
fn verification_needs_all_three_checks() {
    assert!(verification_verdict(true, true, Some(true)));
    assert!(!verification_verdict(true, true, Some(false)));
    assert!(!verification_verdict(true, true, None));
    assert!(!verification_verdict(false, true, Some(true)));
    assert!(!verification_verdict(true, false, Some(true)));
    assert!(!verification_verdict(false, false, None));
}

#[test]
fn verifier_accepts_a_proof_for_its_statement() {
    let (pk, verifier) = setup();
    let statement = statement(5, 1234, 77);
    let proof = prove(&pk, &statement);
    assert!(verifier.verify(&statement, &proof));
    assert!(verifier.verify(&statement, &proof));
    assert!(verifier.verify(&statement, &prove(&pk, &statement)));
}

#[test]
fn verifier_rejects_a_proof_for_another_anchor() {
    let (pk, verifier) = setup();
    let proved = statement(5, 1234, 77);
    let proof = prove(&pk, &proved);
    for other in [0u64, 1, 76, 78, 1234] {
        let claimed = ProofStatement { anchor: anchor(other), ..proved };
        assert!(!verifier.verify(&claimed, &proof));
    }
    assert!(verifier.verify(&proved, &proof));
}

#[test]
fn verifier_rejects_a_proof_for_any_other_public_input() {
    let (pk, verifier) = setup();
    let proved = statement(5, 1234, 77);
    let proof = prove(&pk, &proved);
    let others = [
        ProofStatement { nullifier: nullifier(1235), ..proved },
        ProofStatement { rk: statement(6, 1234, 77).rk, ..proved },
        ProofStatement { balance_commitment: commitment(10), ..proved },
    ];
    for other in others {
        assert!(!verifier.verify(&other, &proof));
    }
    assert!(verifier.verify(&proved, &proof));
}

#[test]
fn verifier_rejects_a_changed_proof() {
    let (pk, verifier) = setup();
    let statement = statement(5, 1234, 77);
    let proof = prove(&pk, &statement);
    assert_eq!(proof.0.len(), 192);
    for i in [0usize, 47, 48, 100, 143, 144, 191] {
        let mut changed = proof.clone();
        changed.0[i] ^= 0x01;
        assert!(!verifier.verify(&statement, &changed));
    }
    assert!(!verifier.verify(&statement, &SpendProof(Vec::new())));
    assert!(!verifier.verify(&statement, &SpendProof(proof.0[..191].to_vec())));
    assert!(!verifier.verify(&statement, &SpendProof(vec![0u8; 192])));
}

#[test]
fn verifier_rejects_a_proof_of_another_statement() {
    let (pk, verifier) = setup();
    let first = statement(5, 1234, 77);
    let second = statement(5, 4321, 77);
    let proof = prove(&pk, &second);
    assert!(!verifier.verify(&first, &proof));
    assert!(verifier.verify(&second, &proof));
}

#[test]
fn verifier_with_another_key_rejects() {
    let (pk, _) = setup();
    let (_, other) = setup();
    let statement = statement(5, 1234, 77);
    let proof = prove(&pk, &statement);
    assert!(!other.verify(&statement, &proof));
}

#[test]
fn verifier_without_a_readable_key_rejects() {
    let (pk, _) = setup();
    let statement = statement(5, 1234, 77);
    let proof = prove(&pk, &statement);
    assert!(!ProofVerifier::new(Vec::new()).verify(&statement, &proof));
    assert!(!ProofVerifier::new(vec![0xff; 624]).verify(&statement, &proof));
}

#[test]
fn verifier_rejects_inputs_that_are_no_field_elements() {
    let (pk, verifier) = setup();
    let proved = statement(5, 1234, 77);
    let proof = prove(&pk, &proved);
    assert!(!verifier.verify(&ProofStatement { anchor: Anchor([0xff; 32]), ..proved }, &proof));
    assert!(!verifier.verify(&ProofStatement { nullifier: Nullifier([0xff; 32]), ..proved }, &proof));
}

#[test]
fn verifier_rejects_what_is_no_group_element() {
    let (pk, verifier) = setup();
    let no_element = Fq::from(1u64).to_bytes();
    assert!(Encoding(no_element).vartime_decompress().is_err());
    let proved = statement(5, 1234, 77);
    let no_commitment =
        ProofStatement { balance_commitment: BalanceCommitment(no_element), ..proved };
    assert!(!verifier.verify(&no_commitment, &prove(&pk, &no_commitment)));
    let no_key = ProofStatement { rk: SpendVerificationKey(no_element), ..proved };
    assert!(!verifier.verify(&no_key, &prove(&pk, &no_key)));
    assert!(verifier.verify(&proved, &prove(&pk, &proved)));
}
