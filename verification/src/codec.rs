use vstd::prelude::*;

use crate::errors::ZkError;
use crate::field::{field_order, field_value, FieldElement};

verus! {

/// A Groth16 proving key, opaque cryptographic material produced by one
/// setup run; immutable and only ever read.
#[verifier::external_body]
pub struct ProvingKey {
    pub(crate) inner: ark_groth16::ProvingKey<ark_bn254::Bn254>,
}

/// A Groth16 verifying key, the public half of the pair a setup run emits.
#[verifier::external_body]
pub struct VerifyingKey {
    pub(crate) inner: ark_groth16::VerifyingKey<ark_bn254::Bn254>,
}

/// A verifying key preprocessed for repeated verification; immutable.
#[verifier::external_body]
pub struct PreparedVerifyingKey {
    pub(crate) inner: ark_groth16::PreparedVerifyingKey<ark_bn254::Bn254>,
}

/// One Groth16 proof, bound to one public input and one setup run.
#[verifier::external_body]
pub struct ZkProof {
    pub(crate) inner: ark_groth16::Proof<ark_bn254::Bn254>,
}

/// The canonical byte encoding of a proving key.
pub uninterp spec fn proving_key_encoding(k: ProvingKey) -> Seq<u8>;

/// The canonical byte encoding of a verifying key.
pub uninterp spec fn verifying_key_encoding(k: VerifyingKey) -> Seq<u8>;

/// The canonical byte encoding of a proof.
pub uninterp spec fn proof_encoding(p: ZkProof) -> Seq<u8>;

/// Whether a proving key passes the backend's validity check (all group
/// elements on their curves and in their subgroups). Keys this library
/// decodes always do; an arbitrary value of the opaque type need not.
pub uninterp spec fn proving_key_valid(k: ProvingKey) -> bool;

/// Whether a verifying key passes the backend's validity check.
pub uninterp spec fn verifying_key_valid(k: VerifyingKey) -> bool;

/// Whether a proof passes the backend's validity check.
pub uninterp spec fn proof_valid(p: ZkProof) -> bool;

/// The integer a little-endian byte string denotes.
pub open spec fn bytes_value(b: Seq<u8>) -> nat
    decreases b.len(),
{
    if b.len() == 0 {
        0
    } else {
        b[0] as nat + 256 * bytes_value(b.drop_first())
    }
}

/// Decoding is exact: any bytes that are the canonical encoding of a valid
/// proving key decode to that key.
pub open spec fn decodes_proving_key(bytes: Seq<u8>, r: Result<ProvingKey, ZkError>) -> bool {
    forall|k: ProvingKey|
        proving_key_valid(k) && bytes == #[trigger] proving_key_encoding(k) ==> r == Ok::<
            ProvingKey,
            ZkError,
        >(k)
}

/// Decoding is exact: any bytes that are the canonical encoding of a valid
/// verifying key decode to that key.
pub open spec fn decodes_verifying_key(bytes: Seq<u8>, r: Result<VerifyingKey, ZkError>) -> bool {
    forall|k: VerifyingKey|
        verifying_key_valid(k) && bytes == #[trigger] verifying_key_encoding(k) ==> r == Ok::<
            VerifyingKey,
            ZkError,
        >(k)
}

/// Decoding is exact: any bytes that are the canonical encoding of a valid
/// proof decode to that proof.
pub open spec fn decodes_proof(bytes: Seq<u8>, r: Result<ZkProof, ZkError>) -> bool {
    forall|p: ZkProof|
        proof_valid(p) && bytes == #[trigger] proof_encoding(p) ==> r == Ok::<ZkProof, ZkError>(p)
}

/// Relies on ark_serialize's compressed `CanonicalSerialize` for Groth16
/// proving keys: a deterministic canonical encoding; writing into a byte
/// vector cannot fail.
#[verifier::external_body]
pub fn encode_proving_key(k: &ProvingKey) -> (r: Vec<u8>)
    ensures
        r@ == proving_key_encoding(*k),
{
    let mut bytes = Vec::new();
    ark_serialize::CanonicalSerialize::serialize_compressed(&k.inner, &mut bytes).unwrap();
    bytes
}

/// Relies on compressed `CanonicalDeserialize` with validation for Groth16
/// proving keys: decoding the canonical encoding of a valid key yields that
/// key. Nothing more is claimed of other accepted inputs: the backend reads
/// from the front, ignores trailing bytes, and ignores the coordinate bytes
/// of an infinity-flagged point, so accepted bytes need not re-encode to a
/// prefix of the input.
#[verifier::external_body]
pub fn decode_proving_key(bytes: &Vec<u8>) -> (r: Result<ProvingKey, ZkError>)
    ensures
        decodes_proving_key(bytes@, r),
        r matches Ok(k) ==> proving_key_valid(k),
        r matches Err(e) ==> e == ZkError::KeyLoad,
{
    match ark_serialize::CanonicalDeserialize::deserialize_compressed(&bytes[..]) {
        Ok(inner) => Ok(ProvingKey { inner }),
        Err(_) => Err(ZkError::KeyLoad),
    }
}

/// Relies on ark_serialize's compressed `CanonicalSerialize` for Groth16
/// verifying keys, as for proving keys.
#[verifier::external_body]
pub fn encode_verifying_key(k: &VerifyingKey) -> (r: Vec<u8>)
    ensures
        r@ == verifying_key_encoding(*k),
{
    let mut bytes = Vec::new();
    ark_serialize::CanonicalSerialize::serialize_compressed(&k.inner, &mut bytes).unwrap();
    bytes
}

/// Relies on compressed `CanonicalDeserialize` with validation for Groth16
/// verifying keys, as for proving keys.
#[verifier::external_body]
pub fn decode_verifying_key(bytes: &Vec<u8>) -> (r: Result<VerifyingKey, ZkError>)
    ensures
        decodes_verifying_key(bytes@, r),
        r matches Ok(k) ==> verifying_key_valid(k),
        r matches Err(e) ==> e == ZkError::KeyLoad,
{
    match ark_serialize::CanonicalDeserialize::deserialize_compressed(&bytes[..]) {
        Ok(inner) => Ok(VerifyingKey { inner }),
        Err(_) => Err(ZkError::KeyLoad),
    }
}

/// Relies on ark_serialize's compressed `CanonicalSerialize` for Groth16
/// proofs, as for keys.
#[verifier::external_body]
pub fn encode_proof(p: &ZkProof) -> (r: Vec<u8>)
    ensures
        r@ == proof_encoding(*p),
{
    let mut bytes = Vec::new();
    ark_serialize::CanonicalSerialize::serialize_compressed(&p.inner, &mut bytes).unwrap();
    bytes
}

/// Relies on compressed `CanonicalDeserialize` with validation for Groth16
/// proofs: decoding the canonical encoding of a valid proof yields that
/// proof, with the same limit as for keys on what other inputs may decode.
#[verifier::external_body]
pub fn decode_proof(bytes: &Vec<u8>) -> (r: Result<ZkProof, ZkError>)
    ensures
        decodes_proof(bytes@, r),
        r matches Ok(p) ==> proof_valid(p),
        r matches Err(e) ==> e == ZkError::Serialization,
{
    match ark_serialize::CanonicalDeserialize::deserialize_compressed(&bytes[..]) {
        Ok(inner) => Ok(ZkProof { inner }),
        Err(_) => Err(ZkError::Serialization),
    }
}

/// Relies on ark_serialize for BN254 field elements: the canonical encoding
/// is exactly the 32 little-endian bytes of the canonical value, which lies
/// below the field order.
#[verifier::external_body]
pub fn encode_commitment(x: &FieldElement) -> (r: Vec<u8>)
    ensures
        r@.len() == 32,
        bytes_value(r@) == field_value(*x),
        bytes_value(r@) < field_order(),
{
    let mut bytes = Vec::new();
    ark_serialize::CanonicalSerialize::serialize_compressed(&x.inner, &mut bytes).unwrap();
    bytes
}

/// Relies on ark_serialize for BN254 field elements: 32 little-endian bytes
/// decode to the field element of that value exactly when the value lies
/// below the field order.
#[verifier::external_body]
fn field_from_bytes(bytes: &Vec<u8>) -> (r: Result<FieldElement, ZkError>)
    requires
        bytes@.len() == 32,
    ensures
        r is Ok <==> bytes_value(bytes@) < field_order(),
        r matches Ok(f) ==> field_value(f) == bytes_value(bytes@),
{
    match ark_serialize::CanonicalDeserialize::deserialize_compressed(&bytes[..]) {
        Ok(inner) => Ok(FieldElement { inner }),
        Err(_) => Err(ZkError::Serialization),
    }
}

/// Decode a commitment from its canonical bytes: succeeds exactly on 32
/// little-endian bytes denoting a value below the field order.
pub fn decode_commitment(bytes: &Vec<u8>) -> (r: Result<FieldElement, ZkError>)
    ensures
        r is Ok <==> (bytes@.len() == 32 && bytes_value(bytes@) < field_order()),
        r matches Ok(f) ==> field_value(f) == bytes_value(bytes@),
        r matches Err(e) ==> e == ZkError::Serialization,
{
    if bytes.len() != 32 {
        return Err(ZkError::Serialization);
    }
    match field_from_bytes(bytes) {
        Ok(f) => Ok(f),
        Err(_) => Err(ZkError::Serialization),
    }
}

/// Round trip: decoding the encoding of a valid proving key returns the
/// key.
pub fn proving_key_round_trip(k: &ProvingKey) -> (r: ProvingKey)
    requires
        proving_key_valid(*k),
    ensures
        r == *k,
{
    let bytes = encode_proving_key(k);
    match decode_proving_key(&bytes) {
        Ok(k2) => k2,
        Err(_) => vstd::pervasive::unreached(),
    }
}

/// Round trip: decoding the encoding of a valid verifying key returns the
/// key.
pub fn verifying_key_round_trip(k: &VerifyingKey) -> (r: VerifyingKey)
    requires
        verifying_key_valid(*k),
    ensures
        r == *k,
{
    let bytes = encode_verifying_key(k);
    match decode_verifying_key(&bytes) {
        Ok(k2) => k2,
        Err(_) => vstd::pervasive::unreached(),
    }
}

/// Round trip: decoding the encoding of a valid proof returns the proof.
pub fn proof_round_trip(p: &ZkProof) -> (r: ZkProof)
    requires
        proof_valid(*p),
    ensures
        r == *p,
{
    let bytes = encode_proof(p);
    match decode_proof(&bytes) {
        Ok(p2) => p2,
        Err(_) => vstd::pervasive::unreached(),
    }
}

/// Round trip: decoding the encoding of a commitment returns a field
/// element of the same value.
pub fn commitment_round_trip(x: &FieldElement) -> (r: FieldElement)
    ensures
        field_value(r) == field_value(*x),
{
    let bytes = encode_commitment(x);
    match decode_commitment(&bytes) {
        Ok(f) => f,
        Err(_) => vstd::pervasive::unreached(),
    }
}

} // verus!
