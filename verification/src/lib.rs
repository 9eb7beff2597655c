// Proves, in zero knowledge, that a caller knows a private field element
// whose commitment hash equals a publicly stated value, without revealing
// the element, and gates a privileged issuing action on that proof: circuit
// shape and satisfaction, key and proof serialization, proving, verifying,
// and the gating flow, over a pairing-based Groth16 backend.

/// The constraint system binding secret to commitment, its satisfaction
/// semantics, and the commitment hash they agree on.
pub mod circuit;
/// Canonical byte encodings of keys, proofs and commitments.
pub mod codec;
/// The failure taxonomy of every fallible operation.
pub mod errors;
/// The scalar field the scheme works over.
pub mod field;
/// Setup artifacts, prover, verifier, and the gating flow.
pub mod zk;
