use vstd::prelude::*;

verus! {

/// The failure taxonomy of the proof subsystem. A negative verification
/// verdict is not an error: `verify` returns `Ok(false)` for a well-formed
/// proof that does not check out, and an error only for the failures below.
#[derive(Clone, Copy, PartialEq, Eq, Structural, Debug)]
pub enum ZkError {
    /// Key bytes were truncated or not a canonical key encoding.
    KeyLoad,
    /// Constraint synthesis was invoked in assigned mode without the
    /// required witness or public-input value, or the backend failed
    /// while synthesizing.
    Synthesis,
    /// Randomness or backend failure while generating a key pair.
    Setup,
    /// Bytes that should encode a proof or a commitment were rejected.
    Serialization,
    /// Verification failed internally, as distinct from a negative verdict.
    VerifyInternal,
}

} // verus!
