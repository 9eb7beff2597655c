use vstd::prelude::*;

use crate::errors::ZkError;
use crate::field::{field_add, field_mul, field_order, field_value, FieldElement};

verus! {

/// The commitment hash on field values: cubing modulo the field order. This
/// is the one function the whole scheme binds secret to commitment with; it
/// is a placeholder with no preimage resistance and must be replaced by a
/// vetted hash before any security claim.
pub open spec fn hash_spec(x: nat) -> nat {
    (x * x * x) % field_order()
}

/// Native computation of the commitment hash. It agrees with the in-circuit
/// constraints on every field element; see `lemma_circuit_satisfiability`.
pub fn hash_native(secret: FieldElement) -> (r: FieldElement)
    ensures
        field_value(r) == hash_spec(field_value(secret)),
{
    let squared = field_mul(&secret, &secret);
    let cubed = field_mul(&squared, &secret);
    proof {
        let s = field_value(secret) as int;
        vstd::arithmetic::div_mod::lemma_mul_mod_noop_left(s * s, s, field_order() as int);
    }
    cubed
}

/// The circuit binding one private witness to one public commitment through
/// the equality `hash(witness) == commitment`. With both values unset it
/// only fixes the constraint shape (for setup); with both set it also yields
/// the full variable assignment (for proving).
pub struct MintAuthCircuit {
    /// Private: the secret, known only to the prover.
    pub secret: Option<FieldElement>,
    /// Public: the commitment, `hash` of the secret.
    pub commitment: Option<FieldElement>,
}

/// Rank-1 constraint matrices over the scalar field. Row `i` of `a`, `b` and
/// `c` constrains an assignment `z` by `(a_i . z) * (b_i . z) == (c_i . z)`;
/// each entry is a coefficient together with the index of the variable it
/// multiplies. Columns `0 .. num_instance` are the instance variables
/// (constant one first), the rest are witness variables.
pub struct ConstraintMatrices {
    pub num_instance: usize,
    pub num_witness: usize,
    pub a: Vec<Vec<(FieldElement, usize)>>,
    pub b: Vec<Vec<(FieldElement, usize)>>,
    pub c: Vec<Vec<(FieldElement, usize)>>,
}

/// A linear combination as coefficient-index pairs over field values.
pub open spec fn terms_view(t: Seq<(FieldElement, usize)>) -> Seq<(nat, nat)> {
    t.map_values(|e: (FieldElement, usize)| (field_value(e.0), e.1 as nat))
}

/// A matrix as rows of coefficient-index pairs over field values.
pub open spec fn matrix_view(m: Seq<Vec<(FieldElement, usize)>>) -> Seq<Seq<(nat, nat)>> {
    m.map_values(|row: Vec<(FieldElement, usize)>| terms_view(row@))
}

/// An assignment as the sequence of its field values.
pub open spec fn values_view(z: Seq<FieldElement>) -> Seq<nat> {
    z.map_values(|x: FieldElement| field_value(x))
}

impl ConstraintMatrices {
    /// Shape well-formedness: equally many rows in the three matrices, and
    /// every variable index within the declared variable count.
    pub open spec fn wf(&self) -> bool {
        &&& self.a@.len() == self.b@.len()
        &&& self.a@.len() == self.c@.len()
        &&& forall|i: int, j: int|
            0 <= i < self.a@.len() && 0 <= j < self.a@[i]@.len() ==> (
            #[trigger] self.a@[i]@[j]).1 < self.num_instance + self.num_witness
        &&& forall|i: int, j: int|
            0 <= i < self.b@.len() && 0 <= j < self.b@[i]@.len() ==> (
            #[trigger] self.b@[i]@[j]).1 < self.num_instance + self.num_witness
        &&& forall|i: int, j: int|
            0 <= i < self.c@.len() && 0 <= j < self.c@[i]@.len() ==> (
            #[trigger] self.c@[i]@[j]).1 < self.num_instance + self.num_witness
    }
}

/// The plain sum of the coefficient-times-value products of a linear
/// combination under an assignment.
pub open spec fn lc_sum(terms: Seq<(nat, nat)>, z: Seq<nat>) -> nat
    decreases terms.len(),
{
    if terms.len() == 0 {
        0
    } else {
        lc_sum(terms.drop_last(), z) + terms.last().0 * z[terms.last().1 as int]
    }
}

/// Value of a linear combination under an assignment: the sum of its
/// coefficient-times-value products, reduced modulo the field order.
pub open spec fn lc_eval(terms: Seq<(nat, nat)>, z: Seq<nat>) -> nat {
    lc_sum(terms, z) % field_order()
}

/// One rank-1 constraint holds of an assignment.
pub open spec fn row_satisfied(
    a: Seq<(nat, nat)>,
    b: Seq<(nat, nat)>,
    c: Seq<(nat, nat)>,
    z: Seq<nat>,
) -> bool {
    (lc_eval(a, z) * lc_eval(b, z)) % field_order() == lc_eval(c, z)
}

/// Every constraint of the system holds of an assignment.
pub open spec fn system_satisfied(
    a: Seq<Seq<(nat, nat)>>,
    b: Seq<Seq<(nat, nat)>>,
    c: Seq<Seq<(nat, nat)>>,
    z: Seq<nat>,
) -> bool {
    forall|i: int| 0 <= i < a.len() ==> #[trigger] row_satisfied(a[i], b[i], c[i], z)
}

/// The `a` matrix of the circuit: columns are 0 = one, 1 = commitment,
/// 2 = secret, 3 = its square, 4 = its cube.
pub open spec fn mint_auth_a() -> Seq<Seq<(nat, nat)>> {
    seq![seq![(1nat, 2nat)], seq![(1nat, 3nat)], seq![(1nat, 4nat)]]
}

/// The `b` matrix of the circuit.
pub open spec fn mint_auth_b() -> Seq<Seq<(nat, nat)>> {
    seq![seq![(1nat, 2nat)], seq![(1nat, 2nat)], seq![(1nat, 0nat)]]
}

/// The `c` matrix of the circuit.
pub open spec fn mint_auth_c() -> Seq<Seq<(nat, nat)>> {
    seq![seq![(1nat, 3nat)], seq![(1nat, 4nat)], seq![(1nat, 1nat)]]
}

impl MintAuthCircuit {
    /// Fix the constraint shape: square the secret, multiply once more, and
    /// bind the result to the public commitment. The shape is independent of
    /// whether values are assigned, so this never fails.
    pub fn generate_constraints(&self) -> (m: ConstraintMatrices)
        ensures
            m.wf(),
            m.num_instance == 2,
            m.num_witness == 3,
            matrix_view(m.a@) == mint_auth_a(),
            matrix_view(m.b@) == mint_auth_b(),
            matrix_view(m.c@) == mint_auth_c(),
    {
        let one = FieldElement::from_u64(1);
        let a = vec![vec![(one, 2usize)], vec![(one, 3usize)], vec![(one, 4usize)]];
        let b = vec![vec![(one, 2usize)], vec![(one, 2usize)], vec![(one, 0usize)]];
        let c = vec![vec![(one, 3usize)], vec![(one, 4usize)], vec![(one, 1usize)]];
        let m = ConstraintMatrices { num_instance: 2, num_witness: 3, a, b, c };
        proof {
            assert(matrix_view(m.a@) =~~= mint_auth_a());
            assert(matrix_view(m.b@) =~~= mint_auth_b());
            assert(matrix_view(m.c@) =~~= mint_auth_c());
        }
        m
    }

    /// The full variable assignment `[one, commitment, secret, square, cube]`
    /// for proving. Fails with the missing-assignment condition when invoked
    /// without both values set, exactly then.
    pub fn assignment(&self) -> (r: Result<Vec<FieldElement>, ZkError>)
        ensures
            r is Ok <==> (self.secret is Some && self.commitment is Some),
            r matches Ok(z) ==> {
                &&& z@.len() == 5
                &&& field_value(z@[0]) == 1
                &&& z@[1] == self.commitment->0
                &&& z@[2] == self.secret->0
                &&& field_value(z@[3]) == (field_value(self.secret->0) * field_value(
                    self.secret->0,
                )) % field_order()
                &&& field_value(z@[4]) == hash_spec(field_value(self.secret->0))
            },
            r matches Err(e) ==> e == ZkError::Synthesis,
    {
        match (self.secret, self.commitment) {
            (Some(s), Some(c)) => {
                let one = FieldElement::from_u64(1);
                let square = field_mul(&s, &s);
                let cube = field_mul(&square, &s);
                proof {
                    let sv = field_value(s) as int;
                    vstd::arithmetic::div_mod::lemma_mul_mod_noop_left(
                        sv * sv,
                        sv,
                        field_order() as int,
                    );
                }
                Ok(vec![one, c, s, square, cube])
            },
            _ => Err(ZkError::Synthesis),
        }
    }
}

/// A pair of values for the square and cube columns that, together with the
/// commitment and the secret, satisfies every constraint of the circuit.
pub open spec fn witness_satisfies(c: nat, s: nat, t: nat, u: nat) -> bool {
    &&& t < field_order()
    &&& u < field_order()
    &&& system_satisfied(mint_auth_a(), mint_auth_b(), mint_auth_c(), seq![1nat, c, s, t, u])
}

/// The circuit admits a satisfying assignment with public input `c` and
/// witness `s`.
pub open spec fn circuit_satisfiable(c: nat, s: nat) -> bool {
    exists|t: nat, u: nat| witness_satisfies(c, s, t, u)
}

/// A linear combination with a single coefficient-one term evaluates to the
/// value of the variable it selects.
proof fn lemma_singleton_lc(v: nat, k: nat, z: Seq<nat>)
    requires
        k < z.len(),
        z[k as int] == v,
        v < field_order(),
    ensures
        lc_eval(seq![(1nat, k)], z) == v,
{
    let terms = seq![(1nat, k)];
    assert(terms.drop_last() =~= Seq::<(nat, nat)>::empty());
    assert(lc_sum(Seq::<(nat, nat)>::empty(), z) == 0);
    assert(lc_sum(terms, z) == v);
    vstd::arithmetic::div_mod::lemma_small_mod(v, field_order());
}

/// For in-range values, the three constraints say exactly: the square column
/// holds the square of the secret, the cube column holds its product with
/// the secret again, and the commitment equals the cube column.
proof fn lemma_rows_characterized(c: nat, s: nat, t: nat, u: nat)
    requires
        s < field_order(),
        c < field_order(),
        t < field_order(),
        u < field_order(),
    ensures
        system_satisfied(mint_auth_a(), mint_auth_b(), mint_auth_c(), seq![1nat, c, s, t, u])
            <==> (t == (s * s) % field_order() && u == (t * s) % field_order() && c == u),
{
    let z = seq![1nat, c, s, t, u];
    let p = field_order();
    lemma_singleton_lc(1nat, 0nat, z);
    lemma_singleton_lc(c, 1nat, z);
    lemma_singleton_lc(s, 2nat, z);
    lemma_singleton_lc(t, 3nat, z);
    lemma_singleton_lc(u, 4nat, z);
    vstd::arithmetic::div_mod::lemma_small_mod(u, p);
    assert(row_satisfied(mint_auth_a()[0], mint_auth_b()[0], mint_auth_c()[0], z) <==> (s * s) % p
        == t);
    assert(row_satisfied(mint_auth_a()[1], mint_auth_b()[1], mint_auth_c()[1], z) <==> (t * s) % p
        == u);
    assert(row_satisfied(mint_auth_a()[2], mint_auth_b()[2], mint_auth_c()[2], z) <==> u == c);
    if t == (s * s) % p && u == (t * s) % p && c == u {
        assert forall|i: int| 0 <= i < mint_auth_a().len() implies #[trigger] row_satisfied(
            mint_auth_a()[i],
            mint_auth_b()[i],
            mint_auth_c()[i],
            z,
        ) by {
            if i == 0 {
            } else if i == 1 {
            } else {
                assert(i == 2);
            }
        }
    }
}

/// The central agreement property of the scheme: for every field element
/// `s` and candidate public input `c`, the circuit is satisfiable with
/// witness `s` and public input `c` exactly when `c` is the commitment hash
/// of `s`, and unsatisfiable otherwise.
pub proof fn lemma_circuit_satisfiability(s: nat, c: nat)
    requires
        s < field_order(),
        c < field_order(),
    ensures
        circuit_satisfiable(c, s) <==> c == hash_spec(s),
{
    let p = field_order();
    vstd::arithmetic::div_mod::lemma_mul_mod_noop_left((s * s) as int, s as int, p as int);
    if circuit_satisfiable(c, s) {
        let (t, u) = choose|t: nat, u: nat| witness_satisfies(c, s, t, u);
        lemma_rows_characterized(c, s, t, u);
    }
    if c == hash_spec(s) {
        let t = (s * s) % p;
        let u = (t * s) % p;
        vstd::arithmetic::div_mod::lemma_mod_bound((s * s) as int, p as int);
        vstd::arithmetic::div_mod::lemma_mod_bound((t * s) as int, p as int);
        lemma_rows_characterized(c, s, t, u);
        assert(witness_satisfies(c, s, t, u));
    }
}

/// The same agreement at the level of concrete assignments: the assignment
/// the circuit hands the prover, whose square and cube columns are computed
/// from the secret, satisfies the generated constraints exactly when the
/// assigned commitment is the hash of the assigned secret.
pub proof fn lemma_assignment_decides_satisfaction(z: Seq<nat>, c: nat, s: nat)
    requires
        z.len() == 5,
        z[0] == 1,
        z[1] == c,
        z[2] == s,
        s < field_order(),
        c < field_order(),
        z[3] == (s * s) % field_order(),
        z[4] == hash_spec(s),
    ensures
        system_satisfied(mint_auth_a(), mint_auth_b(), mint_auth_c(), z) <==> c == hash_spec(s),
{
    let p = field_order();
    let t = (s * s) % p;
    let u = hash_spec(s);
    vstd::arithmetic::div_mod::lemma_mul_mod_noop_left((s * s) as int, s as int, p as int);
    vstd::arithmetic::div_mod::lemma_mod_bound((s * s) as int, p as int);
    vstd::arithmetic::div_mod::lemma_mod_bound((s * s * s) as int, p as int);
    assert(z =~= seq![1nat, c, s, t, u]);
    lemma_rows_characterized(c, s, t, u);
}

/// Value of one linear combination of a well-formed system.
fn eval_lc(terms: &Vec<(FieldElement, usize)>, z: &Vec<FieldElement>) -> (r: FieldElement)
    requires
        forall|j: int| 0 <= j < terms@.len() ==> (#[trigger] terms@[j]).1 < z@.len(),
    ensures
        field_value(r) == lc_eval(terms_view(terms@), values_view(z@)),
{
    let mut acc = FieldElement::from_u64(0);
    let mut k: usize = 0;
    while k < terms.len()
        invariant
            k <= terms@.len(),
            forall|j: int| 0 <= j < terms@.len() ==> (#[trigger] terms@[j]).1 < z@.len(),
            field_value(acc) == lc_eval(terms_view(terms@).take(k as int), values_view(z@)),
        decreases terms@.len() - k,
    {
        let (coeff, var) = terms[k];
        let prod = field_mul(&coeff, &z[var]);
        acc = field_add(&acc, &prod);
        proof {
            let tv = terms_view(terms@);
            let zv = values_view(z@);
            assert(tv.take(k + 1).drop_last() =~= tv.take(k as int));
            assert(tv.take(k + 1).last() == tv[k as int]);
            assert(zv[terms@[k as int].1 as int] == field_value(z@[terms@[k as int].1 as int]));
            vstd::arithmetic::div_mod::lemma_add_mod_noop(
                lc_sum(tv.take(k as int), zv) as int,
                (tv[k as int].0 * zv[tv[k as int].1 as int]) as int,
                field_order() as int,
            );
        }
        k = k + 1;
    }
    proof {
        assert(terms_view(terms@).take(terms@.len() as int) =~= terms_view(terms@));
    }
    acc
}

/// Whether an assignment satisfies every constraint of a well-formed system.
/// This is the satisfaction check that makes satisfiability of the circuit
/// meaningful: it is only defined once all variables carry values.
pub fn is_satisfied(m: &ConstraintMatrices, z: &Vec<FieldElement>) -> (r: bool)
    requires
        m.wf(),
        z@.len() == m.num_instance + m.num_witness,
    ensures
        r == system_satisfied(
            matrix_view(m.a@),
            matrix_view(m.b@),
            matrix_view(m.c@),
            values_view(z@),
        ),
{
    let mut i: usize = 0;
    while i < m.a.len()
        invariant
            i <= m.a@.len(),
            m.wf(),
            z@.len() == m.num_instance + m.num_witness,
            forall|r0: int|
                0 <= r0 < i ==> #[trigger] row_satisfied(
                    matrix_view(m.a@)[r0],
                    matrix_view(m.b@)[r0],
                    matrix_view(m.c@)[r0],
                    values_view(z@),
                ),
        decreases m.a@.len() - i,
    {
        let av = eval_lc(&m.a[i], z);
        let bv = eval_lc(&m.b[i], z);
        let cv = eval_lc(&m.c[i], z);
        let lhs = field_mul(&av, &bv);
        if !lhs.equals(&cv) {
            proof {
                assert(!row_satisfied(
                    matrix_view(m.a@)[i as int],
                    matrix_view(m.b@)[i as int],
                    matrix_view(m.c@)[i as int],
                    values_view(z@),
                ));
            }
            return false;
        }
        i = i + 1;
    }
    true
}

} // verus!
