use vstd::prelude::*;

use crate::circuit::{hash_native, hash_spec, matrix_view, ConstraintMatrices, MintAuthCircuit};
use crate::codec::{
    decode_proving_key, decode_verifying_key, proving_key_encoding, proving_key_valid,
    verifying_key_encoding, verifying_key_valid, PreparedVerifyingKey, ProvingKey, VerifyingKey,
    ZkProof,
};
use crate::errors::ZkError;
use crate::field::{field_random, field_value, FieldElement};

verus! {

/// The result of preprocessing a verifying key, a deterministic function of
/// the key alone.
pub uninterp spec fn prepared(vk: VerifyingKey) -> PreparedVerifyingKey;

/// The verdict of the pairing check for one prepared key, one proof and one
/// public input, a deterministic function of the three alone.
pub uninterp spec fn groth16_verdict(
    pvk: PreparedVerifyingKey,
    proof: ZkProof,
    public_input: nat,
) -> bool;

/// The lengths of the three query vectors a proving key carries, which the
/// backend prover indexes unconditionally.
pub uninterp spec fn proving_key_query_counts(k: ProvingKey) -> (nat, nat, nat);

/// The number of input slots a prepared verifying key carries: the length
/// of its `gamma_abc_g1` vector, counting the constant slot.
pub uninterp spec fn prepared_key_input_slots(pvk: PreparedVerifyingKey) -> nat;

/// A proving key the backend prover can run on: none of the three query
/// vectors it indexes unconditionally is empty. The decoder does not check
/// this (an empty vector is a valid encoding), so the prover tests it.
pub open spec fn proving_key_well_shaped(k: ProvingKey) -> bool {
    &&& proving_key_query_counts(k).0 >= 1
    &&& proving_key_query_counts(k).1 >= 1
    &&& proving_key_query_counts(k).2 >= 1
}

/// A prepared verifying key the backend pairing check can run on: the
/// constant input slot it indexes unconditionally exists.
pub open spec fn prepared_key_well_shaped(pvk: PreparedVerifyingKey) -> bool {
    prepared_key_input_slots(pvk) >= 1
}

/// Relies on the backend's key layout: the lengths of the `a`, `b_g1` and
/// `b_g2` query vectors of a proving key.
#[verifier::external_body]
fn proving_key_query_lengths(k: &ProvingKey) -> (r: (usize, usize, usize))
    ensures
        (r.0 as nat, r.1 as nat, r.2 as nat) == proving_key_query_counts(*k),
{
    (k.inner.a_query.len(), k.inner.b_g1_query.len(), k.inner.b_g2_query.len())
}

/// Relies on the backend's key layout: the length of the prepared key's
/// `gamma_abc_g1` vector.
#[verifier::external_body]
fn prepared_key_slot_count(pvk: &PreparedVerifyingKey) -> (r: usize)
    ensures
        r as nat == prepared_key_input_slots(*pvk),
{
    pvk.inner.vk.gamma_abc_g1.len()
}

/// Relies on ark_groth16's `prepare_verifying_key`: deterministic one-time
/// preprocessing that amortizes repeated verification.
#[verifier::external_body]
pub fn prepare(vk: &VerifyingKey) -> (r: PreparedVerifyingKey)
    ensures
        r == prepared(*vk),
{
    PreparedVerifyingKey { inner: ark_groth16::prepare_verifying_key(&vk.inner) }
}

/// Relies on ark_groth16's `verify_proof`: deterministic in the prepared
/// key, the proof and the public input, and in this backend version it
/// returns a verdict on every call that returns, never an error. The one
/// slot the input preparation indexes unconditionally must exist, else the
/// backend reaches past the end of `gamma_abc_g1`.
#[verifier::external_body]
fn groth16_verify(
    pvk: &PreparedVerifyingKey,
    proof: &ZkProof,
    commitment: &FieldElement,
) -> (r: Result<bool, ZkError>)
    requires
        prepared_key_well_shaped(*pvk),
    ensures
        r is Ok,
        r matches Ok(v) ==> v == groth16_verdict(*pvk, *proof, field_value(*commitment)),
{
    match ark_groth16::Groth16::<ark_bn254::Bn254>::verify_proof(
        &pvk.inner,
        &proof.inner,
        &[commitment.inner],
    ) {
        Ok(v) => Ok(v),
        Err(_) => Err(ZkError::VerifyInternal),
    }
}

/// Relies on ark_groth16's `create_proof_with_reduction_and_matrices`, the
/// prover over explicit constraint matrices. A well-formed shape with a
/// full assignment and at least the constant instance column keeps every
/// index into the matrices and the assignment in range; a well-shaped key
/// keeps the query accesses in range; and with the evaluation domain small
/// enough to exist, the backend's one error path is closed, so the call
/// returns a proof. The proof is blinded by the two random field elements,
/// so nothing is claimed of its value.
#[verifier::external_body]
fn groth16_prove(
    pk: &ProvingKey,
    m: &ConstraintMatrices,
    assignment: &Vec<FieldElement>,
    blind_r: FieldElement,
    blind_s: FieldElement,
) -> (r: Result<ZkProof, ZkError>)
    requires
        m.wf(),
        assignment@.len() == m.num_instance + m.num_witness,
        1 <= m.num_instance,
        m.a@.len() + m.num_instance <= 0x10000000,
        proving_key_well_shaped(*pk),
    ensures
        r is Ok,
{
    let f = |v: &Vec<Vec<(FieldElement, usize)>>| v.iter().map(|r0| r0.iter().map(|t| (t.0.inner, t.1)).collect()).collect();
    let z: Vec<ark_bn254::Fr> = assignment.iter().map(|t| t.inner).collect();
    ark_groth16::Groth16::<ark_bn254::Bn254>::create_proof_with_reduction_and_matrices(
        &pk.inner, blind_r.inner, blind_s.inner, &[f(&m.a), f(&m.b), f(&m.c)], m.num_instance, m.a.len(), &z,
    ).map(|p| ZkProof { inner: p }).map_err(|_| ZkError::Synthesis)
}

/// The proving half of the scheme: holds the proving key of one setup run.
pub struct ZkProver {
    pub proving_key: ProvingKey,
}

/// The verifying half of the scheme: holds the prepared verifying key of
/// one setup run.
pub struct ZkVerifier {
    pub prepared_vk: PreparedVerifyingKey,
}

impl ZkProver {
    /// Load a prover from proving-key bytes; the bytes that encode a valid
    /// key load exactly that key.
    pub fn from_bytes(bytes: &Vec<u8>) -> (r: Result<ZkProver, ZkError>)
        ensures
            forall|k: ProvingKey|
                proving_key_valid(k) && bytes@ == #[trigger] proving_key_encoding(k) ==> (
                r matches Ok(p) && p.proving_key == k),
            r matches Ok(p) ==> proving_key_valid(p.proving_key),
            r matches Err(e) ==> e == ZkError::KeyLoad,
    {
        match decode_proving_key(bytes) {
            Ok(k) => Ok(ZkProver { proving_key: k }),
            Err(e) => Err(e),
        }
    }

    /// Produce a proof together with the commitment it attests, so the two
    /// can never be mismatched by the caller: the commitment returned is the
    /// hash of the secret, always, and proving succeeds exactly when the key
    /// carries the query vectors the backend indexes. A decodable key
    /// without them is a wrong-format key, reported as the key-load error.
    /// The proof itself is freshly blinded on every call and nothing is
    /// promised of its bytes.
    pub fn generate_proof(&self, secret: u64) -> (r: Result<(ZkProof, FieldElement), ZkError>)
        ensures
            r is Ok <==> proving_key_well_shaped(self.proving_key),
            r matches Ok(pc) ==> field_value(pc.1) == hash_spec(secret as nat),
            r matches Err(e) ==> e == ZkError::KeyLoad,
    {
        let (a_len, b_g1_len, b_g2_len) = proving_key_query_lengths(&self.proving_key);
        if a_len == 0 || b_g1_len == 0 || b_g2_len == 0 {
            return Err(ZkError::KeyLoad);
        }
        let s = FieldElement::from_u64(secret);
        let commitment = hash_native(s);
        let circuit = MintAuthCircuit { secret: Some(s), commitment: Some(commitment) };
        let m = circuit.generate_constraints();
        let z = match circuit.assignment() {
            Ok(z) => z,
            Err(_) => vstd::pervasive::unreached(),
        };
        let blind_r = field_random();
        let blind_s = field_random();
        proof {
            assert(matrix_view(m.a@).len() == m.a@.len());
        }
        match groth16_prove(&self.proving_key, &m, &z, blind_r, blind_s) {
            Ok(p) => Ok((p, commitment)),
            Err(_) => vstd::pervasive::unreached(),
        }
    }
}

impl ZkVerifier {
    /// Load a verifier from verifying-key bytes and preprocess the key once;
    /// the bytes that encode a valid key load exactly that key, prepared.
    pub fn from_bytes(bytes: &Vec<u8>) -> (r: Result<ZkVerifier, ZkError>)
        ensures
            forall|k: VerifyingKey|
                verifying_key_valid(k) && bytes@ == #[trigger] verifying_key_encoding(k) ==> (
                r matches Ok(v) && v.prepared_vk == prepared(k)),
            r matches Ok(v) ==> exists|k: VerifyingKey|
                #[trigger] prepared(k) == v.prepared_vk && verifying_key_valid(k),
            r matches Err(e) ==> e == ZkError::KeyLoad,
    {
        match decode_verifying_key(bytes) {
            Ok(vk) => Ok(ZkVerifier { prepared_vk: prepare(&vk) }),
            Err(e) => Err(e),
        }
    }

    /// Check one proof against one commitment. A verdict is returned
    /// exactly when the prepared key carries its constant input slot, and
    /// it is exactly the backend's pairing check for this prepared key,
    /// proof and commitment: a well-formed proof that fails the check
    /// yields `Ok(false)`, the error arises only from the internal failure
    /// of a slotless key, never from a negative verdict, and repeated calls
    /// on the same arguments return the same verdict. Verification mutates
    /// nothing.
    pub fn verify(&self, proof: &ZkProof, commitment: FieldElement) -> (r: Result<bool, ZkError>)
        ensures
            r is Ok <==> prepared_key_well_shaped(self.prepared_vk),
            r matches Ok(v) ==> v == groth16_verdict(
                self.prepared_vk,
                *proof,
                field_value(commitment),
            ),
            r matches Err(e) ==> e == ZkError::VerifyInternal,
    {
        if prepared_key_slot_count(&self.prepared_vk) == 0 {
            return Err(ZkError::VerifyInternal);
        }
        groth16_verify(&self.prepared_vk, proof, &commitment)
    }
}

/// The outcome the gating flow hands to the collaborator that performs the
/// privileged issuing action.
pub enum GateDecision {
    /// The proof verified; the issuing action may run, and the approved
    /// proof and commitment are carried along for audit.
    Approved(ZkProof, FieldElement),
    /// The proof did not verify; the issuing action must not run. The
    /// refused proof and its commitment are carried along, so that the
    /// refusal is tied to the very proof whose verdict was negative.
    Refused(ZkProof, FieldElement),
}

/// The complete prove-then-verify flow that gates the issuing action: a
/// decision is `Approved` only if verification returned true for exactly
/// the returned proof and commitment, `Refused` only if it returned false
/// for them, and in both cases the commitment is the hash of the secret.
/// With both keys of the right shape a decision is always reached; any
/// failure, or a negative verdict, withholds approval.
pub fn prove_and_gate(prover: &ZkProver, verifier: &ZkVerifier, secret: u64) -> (r: Result<
    GateDecision,
    ZkError,
>)
    ensures
        r matches Ok(d) ==> (d matches GateDecision::Approved(p, c) ==> {
            &&& field_value(c) == hash_spec(secret as nat)
            &&& groth16_verdict(verifier.prepared_vk, p, field_value(c))
        }),
        r matches Ok(d) ==> (d matches GateDecision::Refused(p, c) ==> {
            &&& field_value(c) == hash_spec(secret as nat)
            &&& !groth16_verdict(verifier.prepared_vk, p, field_value(c))
        }),
        proving_key_well_shaped(prover.proving_key) && prepared_key_well_shaped(
            verifier.prepared_vk,
        ) ==> r is Ok,
        r matches Err(e) ==> (e == ZkError::KeyLoad || e == ZkError::VerifyInternal),
{
    let (proof, commitment) = match prover.generate_proof(secret) {
        Ok(pc) => pc,
        Err(e) => {
            return Err(e);
        },
    };
    let ok = match verifier.verify(&proof, commitment) {
        Ok(v) => v,
        Err(e) => {
            return Err(e);
        },
    };
    if ok {
        Ok(GateDecision::Approved(proof, commitment))
    } else {
        Ok(GateDecision::Refused(proof, commitment))
    }
}

} // verus!
