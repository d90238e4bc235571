use crate::builder::{gate_output, Builder, Constraint, Gate};
use crate::scalar::{fe_add, fe_mul, lemma_fe_exact, modulus, Scalar};
use vstd::prelude::*;

verus! {

/// The errors of the setup, compile, prove and verify stages.
#[derive(Clone, Copy, Debug, PartialEq, Eq)]
pub enum Error {
    /// Public parameters could not be generated.
    SetupFailure,
    /// The circuit needs more rows than the public parameters support.
    CapacityExceeded,
    /// Running the circuit gave another layout than the compiled one.
    ShapeMismatch,
    /// The witness does not satisfy the circuit's relations.
    ConstraintUnsatisfied,
    /// The proof does not check against the key and public inputs.
    VerificationFailed,
}

/// A gate has these selector values and this wiring.
pub open spec fn gate_is(g: Gate, q_m: int, q_l: int, q_r: int, a: int, b: int, o: int) -> bool {
    &&& g.q_m.value() == q_m
    &&& g.q_l.value() == q_l
    &&& g.q_r.value() == q_r
    &&& g.a == a
    &&& g.b == b
    &&& g.o == o
}

/// Zero and one act as identities on canonical values.
proof fn lemma_small_values(x: int)
    requires
        0 <= x < modulus(),
    ensures
        fe_mul(0, x) == 0,
        fe_mul(x, 0) == 0,
        fe_mul(1, x) == x,
        fe_add(0, x) == x,
        fe_add(x, 0) == x,
{
    lemma_fe_exact(0, x);
    lemma_fe_exact(x, 0);
    lemma_fe_exact(1, x);
}

/// An addition gate with unit coefficients adds its inputs.
pub proof fn lemma_unit_add(x: int, y: int)
    requires
        0 <= x < modulus(),
        0 <= y < modulus(),
    ensures
        gate_output(0, 1, 1, x, y) == fe_add(x, y),
{
    lemma_small_values(x);
    lemma_small_values(y);
}

/// A multiplication gate with unit coefficient multiplies its inputs.
pub proof fn lemma_unit_mul(x: int, y: int)
    requires
        0 <= x < modulus(),
        0 <= y < modulus(),
    ensures
        gate_output(1, 0, 0, x, y) == fe_mul(x, y),
{
    lemma_small_values(x);
    lemma_small_values(y);
    let p = fe_mul(x, y);
    lemma_small_values(p);
}

/// The demonstration circuit: eight secret wires with
/// `x1 + x1 = x2`, `x2 · x3 = x6`, `x4 · x5 = x7` and `x6 · x7 = out`.
#[derive(Clone, Copy, Debug)]
pub struct TestCircuit {
    pub x1: Scalar,
    pub x2: Scalar,
    pub x3: Scalar,
    pub x4: Scalar,
    pub x5: Scalar,
    pub x6: Scalar,
    pub x7: Scalar,
    pub out: Scalar,
}

impl TestCircuit {
    pub open spec fn wf(&self) -> bool {
        &&& self.x1.wf()
        &&& self.x2.wf()
        &&& self.x3.wf()
        &&& self.x4.wf()
        &&& self.x5.wf()
        &&& self.x6.wf()
        &&& self.x7.wf()
        &&& self.out.wf()
    }

    /// The four relations hold in the field.
    pub open spec fn relation(&self) -> bool {
        &&& self.x2.value() == fe_add(self.x1.value(), self.x1.value())
        &&& self.x6.value() == fe_mul(self.x2.value(), self.x3.value())
        &&& self.x7.value() == fe_mul(self.x4.value(), self.x5.value())
        &&& self.out.value() == fe_mul(self.x6.value(), self.x7.value())
    }

    /// `new` is `old` with this circuit's wires, gates and assertions
    /// appended after them.
    pub open spec fn appended(&self, old: Builder, new: Builder) -> bool {
        let n = old.witnesses@.len() as int;
        let m = old.gates@.len() as int;
        &&& new.witnesses@.len() == n + 12
        &&& new.witnesses@.subrange(0, n) == old.witnesses@
        &&& new.val(n) == self.x1.value()
        &&& new.val(n + 1) == self.x2.value()
        &&& new.val(n + 2) == self.x3.value()
        &&& new.val(n + 3) == self.x4.value()
        &&& new.val(n + 4) == self.x5.value()
        &&& new.val(n + 5) == self.x6.value()
        &&& new.val(n + 6) == self.x7.value()
        &&& new.val(n + 7) == self.out.value()
        &&& new.gates@.len() == m + 4
        &&& new.gates@.subrange(0, m) == old.gates@
        &&& gate_is(new.gates@[m], 0, 1, 1, n, n, n + 8)
        &&& gate_is(new.gates@[m + 1], 1, 0, 0, n + 1, n + 2, n + 9)
        &&& gate_is(new.gates@[m + 2], 1, 0, 0, n + 3, n + 4, n + 10)
        &&& gate_is(new.gates@[m + 3], 1, 0, 0, n + 5, n + 6, n + 11)
        &&& new.equalities@ == old.equalities@ + seq![
            ((n + 8) as usize, (n + 1) as usize),
            ((n + 9) as usize, (n + 5) as usize),
            ((n + 10) as usize, (n + 6) as usize),
            ((n + 11) as usize, (n + 7) as usize),
        ]
    }

    /// A circuit whose every wire holds zero: the witness used to fix the
    /// layout at compile time.
    pub fn zeroed() -> (r: TestCircuit)
        ensures
            r.wf(),
            r.x1.value() == 0,
            r.x2.value() == 0,
            r.x3.value() == 0,
            r.x4.value() == 0,
            r.x5.value() == 0,
            r.x6.value() == 0,
            r.x7.value() == 0,
            r.out.value() == 0,
    {
        let z = Scalar::from_u64(0);
        TestCircuit { x1: z, x2: z, x3: z, x4: z, x5: z, x6: z, x7: z, out: z }
    }

    /// Issues the circuit's wires, gates and equality assertions.
    #[verifier::rlimit(40)]
    pub fn circuit(&self, composer: &mut Builder) -> (r: Result<(), Error>)
        requires
            old(composer).wf(),
            self.wf(),
            old(composer).witnesses@.len() + 12 < usize::MAX,
        ensures
            r is Ok,
            final(composer).wf(),
            self.appended(*old(composer), *final(composer)),
    {
        let ghost b0 = *composer;
        let x1 = composer.append_witness(self.x1);
        let x2 = composer.append_witness(self.x2);
        let x3 = composer.append_witness(self.x3);
        let x4 = composer.append_witness(self.x4);
        let x5 = composer.append_witness(self.x5);
        let x6 = composer.append_witness(self.x6);
        let x7 = composer.append_witness(self.x7);
        let out = composer.append_witness(self.out);
        let ghost b1 = *composer;

        let constraint = Constraint::new().left(1).right(1).a(x1).b(x1);
        let result = composer.gate_add(constraint);
        composer.assert_equal(result, x2);
        let ghost b2 = *composer;

        let constraint = Constraint::new().mult(1).a(x2).b(x3);
        let result = composer.gate_mul(constraint);
        composer.assert_equal(result, x6);
        let ghost b3 = *composer;

        let constraint = Constraint::new().mult(1).a(x4).b(x5);
        let result = composer.gate_mul(constraint);
        composer.assert_equal(result, x7);
        let ghost b4 = *composer;

        let constraint = Constraint::new().mult(1).a(x6).b(x7);
        let result = composer.gate_mul(constraint);
        composer.assert_equal(result, out);

        proof {
            let n = b0.witnesses@.len() as int;
            let m = b0.gates@.len() as int;
            assert(composer.witnesses@.subrange(0, n + 8) =~= b1.witnesses@) by {
                assert(composer.witnesses@.subrange(0, n + 8) =~= b4.witnesses@.subrange(0, n + 8));
                assert(b4.witnesses@.subrange(0, n + 8) =~= b3.witnesses@.subrange(0, n + 8));
                assert(b3.witnesses@.subrange(0, n + 8) =~= b2.witnesses@.subrange(0, n + 8));
                assert(b2.witnesses@.subrange(0, n + 8) =~= b1.witnesses@);
            }
            assert(b1.witnesses@.subrange(0, n) =~= b0.witnesses@);
            assert(composer.witnesses@.subrange(0, n) =~= b0.witnesses@) by {
                assert(composer.witnesses@.subrange(0, n) =~= b1.witnesses@.subrange(0, n));
            }
            assert forall|i: int| 0 <= i < n + 8 implies #[trigger] composer.witnesses@[i]
                == b1.witnesses@[i] by {
                assert(composer.witnesses@.subrange(0, n + 8)[i] == composer.witnesses@[i]);
            }
            assert(composer.gates@.subrange(0, m) =~= b0.gates@);
            assert(composer.equalities@ =~= b0.equalities@ + seq![
                ((n + 8) as usize, (n + 1) as usize),
                ((n + 9) as usize, (n + 5) as usize),
                ((n + 10) as usize, (n + 6) as usize),
                ((n + 11) as usize, (n + 7) as usize),
            ]);
        }
        Ok(())
    }
}

impl Default for TestCircuit {
    fn default() -> (r: TestCircuit)
        ensures
            r.wf(),
            r.x1.value() == 0 && r.x2.value() == 0 && r.x3.value() == 0 && r.x4.value() == 0,
            r.x5.value() == 0 && r.x6.value() == 0 && r.x7.value() == 0 && r.out.value() == 0,
    {
        TestCircuit::zeroed()
    }
}

/// Running the circuit on a satisfied builder leaves it satisfied exactly
/// when the witness meets the four relations: a valid witness is never
/// refused, and a witness that breaks any relation is never accepted.
pub proof fn lemma_circuit_satisfied(c: TestCircuit, old: Builder, new: Builder)
    requires
        c.wf(),
        old.wf(),
        new.wf(),
        c.appended(old, new),
    ensures
        new.satisfied() <==> (old.satisfied() && c.relation()),
{
    let n = old.witnesses@.len() as int;
    let k = old.equalities@.len() as int;
    assert forall|i: int| 0 <= i < n implies new.witnesses@[i] == old.witnesses@[i] by {
        assert(new.witnesses@.subrange(0, n)[i] == new.witnesses@[i]);
    }
    assert forall|i: int| 0 <= i < k implies new.equality_holds(i) == old.equality_holds(i) by {
        assert(new.equalities@[i] == old.equalities@[i]);
        assert(old.equalities@[i].0 < n && old.equalities@[i].1 < n);
    }
    let m = old.gates@.len() as int;
    assert(new.gate_wf(new.gates@[m]) && new.gate_holds(new.gates@[m]));
    assert(new.gate_holds(new.gates@[m + 1]));
    assert(new.gate_holds(new.gates@[m + 2]));
    assert(new.gate_holds(new.gates@[m + 3]));
    assert(new.witnesses@[n].wf() && new.witnesses@[n + 1].wf() && new.witnesses@[n + 2].wf());
    assert(new.witnesses@[n + 3].wf() && new.witnesses@[n + 4].wf() && new.witnesses@[n + 5].wf());
    assert(new.witnesses@[n + 6].wf());
    lemma_unit_add(c.x1.value(), c.x1.value());
    lemma_unit_mul(c.x2.value(), c.x3.value());
    lemma_unit_mul(c.x4.value(), c.x5.value());
    lemma_unit_mul(c.x6.value(), c.x7.value());
    assert(new.equalities@[k] == ((n + 8) as usize, (n + 1) as usize));
    assert(new.equalities@[k + 1] == ((n + 9) as usize, (n + 5) as usize));
    assert(new.equalities@[k + 2] == ((n + 10) as usize, (n + 6) as usize));
    assert(new.equalities@[k + 3] == ((n + 11) as usize, (n + 7) as usize));
    assert(new.equality_holds(k) == (c.x2.value() == fe_add(c.x1.value(), c.x1.value())));
    assert(new.equality_holds(k + 1) == (c.x6.value() == fe_mul(c.x2.value(), c.x3.value())));
    assert(new.equality_holds(k + 2) == (c.x7.value() == fe_mul(c.x4.value(), c.x5.value())));
    assert(new.equality_holds(k + 3) == (c.out.value() == fe_mul(c.x6.value(), c.x7.value())));
    if new.satisfied() {
        assert(new.equality_holds(k));
        assert(new.equality_holds(k + 1));
        assert(new.equality_holds(k + 2));
        assert(new.equality_holds(k + 3));
        assert forall|i: int| 0 <= i < k implies #[trigger] old.equality_holds(i) by {
            assert(new.equality_holds(i));
        }
    }
    if old.satisfied() && c.relation() {
        assert forall|i: int| 0 <= i < new.equalities@.len() implies #[trigger] new.equality_holds(i) by {
            if i < k {
                assert(old.equality_holds(i));
            }
        }
    }
}

} // verus!
