use vstd::prelude::*;

verus! {

/// The order of the BN254 scalar field. Every field element has a unique
/// canonical value below this prime, and all arithmetic is modulo it.
pub open spec fn field_order() -> nat {
    21888242871839275222246405745257275088548364400416034343698204186575808495617nat
}

/// One element of the BN254 scalar field, the field over which commitments,
/// secrets and circuit assignments live.
#[verifier::external_body]
pub struct FieldElement {
    pub(crate) inner: ark_bn254::Fr,
}

/// The canonical integer value of a field element, below `field_order()`.
pub uninterp spec fn field_value(x: FieldElement) -> nat;

impl Clone for FieldElement {
    /// Relies on the inner field element being a plain copyable value.
    #[verifier::external_body]
    fn clone(&self) -> (r: Self)
        ensures
            r == *self,
    {
        FieldElement { inner: self.inner }
    }
}

impl Copy for FieldElement {}

impl FieldElement {
    /// Relies on ark_ff's `From<u64>` for the BN254 scalar field: a machine
    /// integer embeds as its own value, since 2^64 is below the field order.
    #[verifier::external_body]
    pub fn from_u64(x: u64) -> (r: FieldElement)
        ensures
            field_value(r) == x as nat,
    {
        FieldElement { inner: ark_bn254::Fr::from(x) }
    }

    /// Relies on the derived `PartialEq` of ark_ff's `Fp`, which compares the
    /// unique internal representation, hence decides equality of values.
    #[verifier::external_body]
    pub fn equals(&self, other: &FieldElement) -> (r: bool)
        ensures
            r == (field_value(*self) == field_value(*other)),
    {
        self.inner == other.inner
    }
}

/// Relies on ark_ff's field multiplication for BN254: the product of the
/// canonical values, reduced modulo the field order.
#[verifier::external_body]
pub(crate) fn field_mul(a: &FieldElement, b: &FieldElement) -> (r: FieldElement)
    ensures
        field_value(r) == (field_value(*a) * field_value(*b)) % field_order(),
{
    FieldElement { inner: a.inner * b.inner }
}

/// Relies on ark_ff's field addition for BN254: the sum of the canonical
/// values, reduced modulo the field order.
#[verifier::external_body]
pub(crate) fn field_add(a: &FieldElement, b: &FieldElement) -> (r: FieldElement)
    ensures
        field_value(r) == (field_value(*a) + field_value(*b)) % field_order(),
{
    FieldElement { inner: a.inner + b.inner }
}

/// Relies on ark_ff's `UniformRand` with the thread-local secure generator.
/// The result is random blinding material: nothing is known of its value
/// beyond the range every field element satisfies.
#[verifier::external_body]
pub(crate) fn field_random() -> (r: FieldElement)
    ensures
        field_value(r) < field_order(),
{
    FieldElement { inner: <ark_bn254::Fr as ark_ff::UniformRand>::rand(&mut ark_std::rand::thread_rng()) }
}

} // verus!
