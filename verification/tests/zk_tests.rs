use ark_bn254::{Bn254, Fr};
use ark_relations::gr1cs::{
    ConstraintSynthesizer, ConstraintSystemRef, LinearCombination, SynthesisError, Variable,
};
use ark_snark::SNARK;

use zk_mint_auth::circuit::hash_native;
use zk_mint_auth::codec::{
    commitment_round_trip, decode_commitment, decode_proof, decode_proving_key,
    decode_verifying_key, encode_commitment, encode_proof, encode_proving_key,
    encode_verifying_key, proof_round_trip, proving_key_round_trip, verifying_key_round_trip,
};
use zk_mint_auth::errors::ZkError;
use zk_mint_auth::field::FieldElement;
use zk_mint_auth::zk::{GateDecision, ZkProver, ZkVerifier, prove_and_gate};

/// The same constraint shape the library proves over, written against the
/// constraint-system backend so setup can synthesize it: variables are
/// one, commitment (public), secret, its square and its cube, and the three
/// constraints say square = secret * secret, cube = square * secret, and
/// commitment = cube * one.
struct ShapeCircuit;

fn missing() -> Result<Fr, SynthesisError> {
    Err(SynthesisError::AssignmentMissing)
}

impl ConstraintSynthesizer<Fr> for ShapeCircuit {
    fn generate_constraints(self, cs: ConstraintSystemRef<Fr>) -> Result<(), SynthesisError> {
        let s = cs.new_witness_variable(missing)?;
        let c = cs.new_input_variable(missing)?;
        let t = cs.new_witness_variable(missing)?;
        let u = cs.new_witness_variable(missing)?;
        cs.enforce_r1cs_constraint(
            || LinearCombination::from(s),
            || LinearCombination::from(s),
            || LinearCombination::from(t),
        )?;
        cs.enforce_r1cs_constraint(
            || LinearCombination::from(t),
            || LinearCombination::from(s),
            || LinearCombination::from(u),
        )?;
        cs.enforce_r1cs_constraint(
            || LinearCombination::from(u),
            || LinearCombination::from(Variable::One),
            || LinearCombination::from(c),
        )?;
        Ok(())
    }
}

/// One fresh setup run, returning the serialized key pair.
fn setup_key_bytes() -> (Vec<u8>, Vec<u8>) {
    let mut rng = ark_std::rand::thread_rng();
    let (pk, vk) =
        ark_groth16::Groth16::<Bn254>::circuit_specific_setup(ShapeCircuit, &mut rng).unwrap();
    let mut pk_bytes = Vec::new();
    ark_serialize::CanonicalSerialize::serialize_compressed(&pk, &mut pk_bytes).unwrap();
    let mut vk_bytes = Vec::new();
    ark_serialize::CanonicalSerialize::serialize_compressed(&vk, &mut vk_bytes).unwrap();
    (pk_bytes, vk_bytes)
}

#[test]
fn test_proof_generation_and_verification() {
    let (pk_bytes, vk_bytes) = setup_key_bytes();

    let secret = 42u64;

    let prover = ZkProver::from_bytes(&pk_bytes).unwrap();
    let verifier = ZkVerifier::from_bytes(&vk_bytes).unwrap();

    let (proof, commitment) = prover.generate_proof(secret).unwrap();

    let is_valid = verifier.verify(&proof, commitment).unwrap();
    assert!(is_valid);
}

#[test]
fn test_invalid_proof_fails() {
    let (pk_bytes, vk_bytes) = setup_key_bytes();

    let secret = 42u64;

    let prover = ZkProver::from_bytes(&pk_bytes).unwrap();
    let verifier = ZkVerifier::from_bytes(&vk_bytes).unwrap();

    let (proof, _) = prover.generate_proof(secret).unwrap();

    // Use wrong commitment
    let wrong_commitment = FieldElement::from_u64(99999);
    let is_valid = verifier.verify(&proof, wrong_commitment).unwrap();

    assert!(!is_valid);
}

#[test]
fn test_prove_then_verify_secret_12345() {
    let (pk_bytes, vk_bytes) = setup_key_bytes();
    let prover = ZkProver::from_bytes(&pk_bytes).unwrap();
    let verifier = ZkVerifier::from_bytes(&vk_bytes).unwrap();

    let (proof, commitment) = prover.generate_proof(12345).unwrap();
    assert!(commitment.equals(&hash_native(FieldElement::from_u64(12345))));
    assert!(verifier.verify(&proof, commitment).unwrap());

    // The same proof against commitment 99999 must not verify.
    let wrong = FieldElement::from_u64(99999);
    assert!(!verifier.verify(&proof, wrong).unwrap());
}

#[test]
fn test_cross_setup_rejection() {
    let (pk_a, _vk_a) = setup_key_bytes();
    let (_pk_b, vk_b) = setup_key_bytes();

    let prover_a = ZkProver::from_bytes(&pk_a).unwrap();
    let verifier_b = ZkVerifier::from_bytes(&vk_b).unwrap();

    let (proof, commitment) = prover_a.generate_proof(77).unwrap();
    // The commitment value matches numerically, yet the keys come from
    // different setup runs, so verification must fail.
    assert!(!verifier_b.verify(&proof, commitment).unwrap());
}

#[test]
fn test_proof_corruption_never_verifies() {
    let (pk_bytes, vk_bytes) = setup_key_bytes();
    let prover = ZkProver::from_bytes(&pk_bytes).unwrap();
    let verifier = ZkVerifier::from_bytes(&vk_bytes).unwrap();

    let (proof, commitment) = prover.generate_proof(31337).unwrap();
    let good_bytes = encode_proof(&proof);

    for position in [0usize, good_bytes.len() / 2, good_bytes.len() - 1] {
        let mut corrupt = good_bytes.clone();
        corrupt[position] ^= 0x01;
        match decode_proof(&corrupt) {
            Err(e) => assert_eq!(e, ZkError::Serialization),
            Ok(damaged) => {
                // A decodable corruption must never yield a true verdict.
                let verdict = verifier.verify(&damaged, commitment);
                assert!(!matches!(verdict, Ok(true)));
            }
        }
    }
}

#[test]
fn test_two_proofs_differ_but_both_verify() {
    let (pk_bytes, vk_bytes) = setup_key_bytes();
    let prover = ZkProver::from_bytes(&pk_bytes).unwrap();
    let verifier = ZkVerifier::from_bytes(&vk_bytes).unwrap();

    let (proof_one, commitment_one) = prover.generate_proof(9001).unwrap();
    let (proof_two, commitment_two) = prover.generate_proof(9001).unwrap();

    assert!(commitment_one.equals(&commitment_two));
    // Fresh blinding on each call makes the proofs byte-different.
    assert_ne!(encode_proof(&proof_one), encode_proof(&proof_two));
    assert!(verifier.verify(&proof_one, commitment_one).unwrap());
    assert!(verifier.verify(&proof_two, commitment_one).unwrap());
}

#[test]
fn test_key_and_proof_round_trips() {
    let (pk_bytes, vk_bytes) = setup_key_bytes();
    let prover = ZkProver::from_bytes(&pk_bytes).unwrap();

    // Two decode/encode cycles reproduce the proving-key bytes exactly.
    let once = encode_proving_key(&prover.proving_key);
    assert_eq!(once, pk_bytes);
    let again = encode_proving_key(&decode_proving_key(&once).unwrap());
    assert_eq!(again, pk_bytes);

    // The verifying-key encoding round-trips through the library decoder.
    let vk = decode_verifying_key(&vk_bytes).unwrap();
    assert_eq!(encode_verifying_key(&vk), vk_bytes);

    let (proof, _) = prover.generate_proof(5).unwrap();
    let proof_bytes = encode_proof(&proof);
    let proof_again = decode_proof(&proof_bytes).unwrap();
    assert_eq!(encode_proof(&proof_again), proof_bytes);
}

#[test]
fn test_round_trip_functions_return_equal_artifacts() {
    let (pk_bytes, vk_bytes) = setup_key_bytes();
    let prover = ZkProver::from_bytes(&pk_bytes).unwrap();

    let pk_rt = proving_key_round_trip(&prover.proving_key);
    assert_eq!(encode_proving_key(&pk_rt), pk_bytes);

    let vk = decode_verifying_key(&vk_bytes).unwrap();
    let vk_rt = verifying_key_round_trip(&vk);
    assert_eq!(encode_verifying_key(&vk_rt), vk_bytes);

    let (proof, commitment) = prover.generate_proof(8).unwrap();
    let proof_rt = proof_round_trip(&proof);
    assert_eq!(encode_proof(&proof_rt), encode_proof(&proof));

    let commitment_rt = commitment_round_trip(&commitment);
    assert!(commitment_rt.equals(&commitment));
}

#[test]
fn test_commitment_round_trip() {
    let c = hash_native(FieldElement::from_u64(123456789));
    let bytes = encode_commitment(&c);
    assert_eq!(bytes.len(), 32);
    let back = decode_commitment(&bytes).unwrap();
    assert!(back.equals(&c));

    // A small value encodes little-endian: 5 cubed is 125.
    let small = hash_native(FieldElement::from_u64(5));
    let small_bytes = encode_commitment(&small);
    assert_eq!(small_bytes[0], 125);
    assert!(small_bytes[1..].iter().all(|b| *b == 0));
}

#[test]
fn test_decode_errors() {
    // Truncated or garbage key bytes are a key-load failure.
    assert!(matches!(
        ZkProver::from_bytes(&vec![1u8, 2, 3]),
        Err(ZkError::KeyLoad)
    ));
    assert!(matches!(
        ZkVerifier::from_bytes(&vec![0u8; 10]),
        Err(ZkError::KeyLoad)
    ));
    // A commitment must be exactly 32 bytes.
    assert!(matches!(
        decode_commitment(&vec![0u8; 31]),
        Err(ZkError::Serialization)
    ));
    // 32 bytes of 0xff denote a value at least the field order.
    assert!(matches!(
        decode_commitment(&vec![0xffu8; 32]),
        Err(ZkError::Serialization)
    ));
    // Garbage proof bytes are a serialization failure.
    assert!(matches!(
        decode_proof(&vec![9u8; 7]),
        Err(ZkError::Serialization)
    ));
}

#[test]
fn test_prove_and_gate_approves_valid_secret() {
    let (pk_bytes, vk_bytes) = setup_key_bytes();
    let prover = ZkProver::from_bytes(&pk_bytes).unwrap();
    let verifier = ZkVerifier::from_bytes(&vk_bytes).unwrap();

    match prove_and_gate(&prover, &verifier, 12345).unwrap() {
        GateDecision::Approved(proof, commitment) => {
            assert!(commitment.equals(&hash_native(FieldElement::from_u64(12345))));
            assert!(verifier.verify(&proof, commitment).unwrap());
        }
        GateDecision::Refused(_, _) => panic!("a valid secret must be approved"),
    }
}

#[test]
fn test_prove_and_gate_refuses_cross_setup() {
    let (pk_a, _vk_a) = setup_key_bytes();
    let (_pk_b, vk_b) = setup_key_bytes();
    let prover = ZkProver::from_bytes(&pk_a).unwrap();
    let verifier = ZkVerifier::from_bytes(&vk_b).unwrap();

    match prove_and_gate(&prover, &verifier, 55).unwrap() {
        GateDecision::Refused(proof, commitment) => {
            // The refusal carries the very proof whose verdict was negative.
            assert!(commitment.equals(&hash_native(FieldElement::from_u64(55))));
            assert!(!verifier.verify(&proof, commitment).unwrap());
        }
        GateDecision::Approved(_, _) => panic!("cross-setup proofs must be refused"),
    }
}

#[test]
fn test_misshaped_proving_key_is_key_load_error() {
    // A key whose query vectors are empty still decodes (every point in it
    // is valid), but the prover must report it instead of running on it.
    let (pk_bytes, _vk_bytes) = setup_key_bytes();
    let mut pk: ark_groth16::ProvingKey<Bn254> =
        ark_serialize::CanonicalDeserialize::deserialize_compressed(&pk_bytes[..]).unwrap();
    pk.a_query.clear();
    pk.b_g1_query.clear();
    pk.b_g2_query.clear();
    let mut bytes = Vec::new();
    ark_serialize::CanonicalSerialize::serialize_compressed(&pk, &mut bytes).unwrap();

    let prover = ZkProver::from_bytes(&bytes).unwrap();
    assert!(matches!(prover.generate_proof(7), Err(ZkError::KeyLoad)));
}

#[test]
fn test_misshaped_verifying_key_is_internal_error() {
    // A verifying key without its constant input slot still decodes and
    // prepares; verification must report it instead of running on it.
    let (pk_bytes, vk_bytes) = setup_key_bytes();
    let mut vk: ark_groth16::VerifyingKey<Bn254> =
        ark_serialize::CanonicalDeserialize::deserialize_compressed(&vk_bytes[..]).unwrap();
    vk.gamma_abc_g1.clear();
    let mut bytes = Vec::new();
    ark_serialize::CanonicalSerialize::serialize_compressed(&vk, &mut bytes).unwrap();

    let verifier = ZkVerifier::from_bytes(&bytes).unwrap();
    let prover = ZkProver::from_bytes(&pk_bytes).unwrap();
    let (proof, commitment) = prover.generate_proof(3).unwrap();
    assert!(matches!(
        verifier.verify(&proof, commitment),
        Err(ZkError::VerifyInternal)
    ));
}
