use crate::scalar::{fe_add, fe_mul, Scalar};
use vstd::prelude::*;

verus! {

/// A handle on one wire of a [`Builder`]: the index of its value.
#[derive(Clone, Copy, Debug, PartialEq, Eq)]
pub struct Witness {
    pub index: usize,
}

/// The description of one arithmetic gate before it is appended: the
/// multiplicative, left and right selector coefficients and the two input
/// wires.  Unset coefficients are zero and unset wires are the builder's
/// reserved zero wire.
#[derive(Clone, Copy, Debug)]
pub struct Constraint {
    pub q_m: Scalar,
    pub q_l: Scalar,
    pub q_r: Scalar,
    pub a: Witness,
    pub b: Witness,
}

/// One gate as the builder records it: selectors and the wiring of its
/// inputs `a`, `b` and its output `o`.  Its equation is
/// `o = q_m·a·b + q_l·a + q_r·b` in the field.
#[derive(Clone, Copy, Debug)]
pub struct Gate {
    pub q_m: Scalar,
    pub q_l: Scalar,
    pub q_r: Scalar,
    pub a: usize,
    pub b: usize,
    pub o: usize,
}

/// The value that a gate with these selectors puts on its output wire.
pub open spec fn gate_output(q_m: int, q_l: int, q_r: int, a: int, b: int) -> int {
    fe_add(fe_add(fe_mul(fe_mul(q_m, a), b), fe_mul(q_l, a)), fe_mul(q_r, b))
}

impl Constraint {
    pub open spec fn wf(&self) -> bool {
        self.q_m.wf() && self.q_l.wf() && self.q_r.wf()
    }

    /// A constraint with every coefficient zero, wired to the zero wire.
    pub fn new() -> (r: Constraint)
        ensures
            r.wf(),
            r.q_m.value() == 0,
            r.q_l.value() == 0,
            r.q_r.value() == 0,
            r.a.index == 0,
            r.b.index == 0,
    {
        let zero = Scalar::from_u64(0);
        Constraint { q_m: zero, q_l: zero, q_r: zero, a: Witness { index: 0 }, b: Witness { index: 0 } }
    }

    /// Sets the multiplicative coefficient.
    pub fn mult(self, q: u64) -> (r: Constraint)
        ensures
            r.q_m.value() == q as int,
            r.q_m.wf(),
            r.q_l == self.q_l,
            r.q_r == self.q_r,
            r.a == self.a,
            r.b == self.b,
    {
        Constraint { q_m: Scalar::from_u64(q), ..self }
    }

    /// Sets the coefficient of the left input.
    pub fn left(self, q: u64) -> (r: Constraint)
        ensures
            r.q_l.value() == q as int,
            r.q_l.wf(),
            r.q_m == self.q_m,
            r.q_r == self.q_r,
            r.a == self.a,
            r.b == self.b,
    {
        Constraint { q_l: Scalar::from_u64(q), ..self }
    }

    /// Sets the coefficient of the right input.
    pub fn right(self, q: u64) -> (r: Constraint)
        ensures
            r.q_r.value() == q as int,
            r.q_r.wf(),
            r.q_m == self.q_m,
            r.q_l == self.q_l,
            r.a == self.a,
            r.b == self.b,
    {
        Constraint { q_r: Scalar::from_u64(q), ..self }
    }

    /// Wires the left input.
    pub fn a(self, w: Witness) -> (r: Constraint)
        ensures
            r == (Constraint { a: w, ..self }),
    {
        Constraint { a: w, ..self }
    }

    /// Wires the right input.
    pub fn b(self, w: Witness) -> (r: Constraint)
        ensures
            r == (Constraint { b: w, ..self }),
    {
        Constraint { b: w, ..self }
    }
}

/// Accumulates the wire values, gates and equality assertions of a circuit.
/// Wire 0 is reserved and holds zero.
pub struct Builder {
    pub witnesses: Vec<Scalar>,
    pub gates: Vec<Gate>,
    pub equalities: Vec<(usize, usize)>,
}

impl Builder {
    /// The value on wire `i`.
    pub open spec fn val(&self, i: int) -> int {
        self.witnesses@[i].value()
    }

    /// Its equation holds for the builder's wire values.
    pub open spec fn gate_holds(&self, g: Gate) -> bool {
        self.val(g.o as int) == gate_output(
            g.q_m.value(),
            g.q_l.value(),
            g.q_r.value(),
            self.val(g.a as int),
            self.val(g.b as int),
        )
    }

    /// A gate's coefficients are canonical and its wires exist.
    pub open spec fn gate_wf(&self, g: Gate) -> bool {
        &&& g.q_m.wf()
        &&& g.q_l.wf()
        &&& g.q_r.wf()
        &&& g.a < self.witnesses@.len()
        &&& g.b < self.witnesses@.len()
        &&& g.o < self.witnesses@.len()
    }

    /// Every value is canonical, every handle in a gate or an assertion
    /// names an existing wire, and every gate's output was evaluated from
    /// its inputs.
    pub open spec fn wf(&self) -> bool {
        &&& self.witnesses@.len() >= 1
        &&& forall|i: int| 0 <= i < self.witnesses@.len() ==> (#[trigger] self.witnesses@[i]).wf()
        &&& forall|i: int|
            0 <= i < self.gates@.len() ==> self.gate_wf(#[trigger] self.gates@[i])
                && self.gate_holds(self.gates@[i])
        &&& forall|i: int|
            0 <= i < self.equalities@.len() ==> (#[trigger] self.equalities@[i]).0
                < self.witnesses@.len() && self.equalities@[i].1 < self.witnesses@.len()
    }

    /// The equality assertion at position `i` holds.
    pub open spec fn equality_holds(&self, i: int) -> bool {
        self.val(self.equalities@[i].0 as int) == self.val(self.equalities@[i].1 as int)
    }

    /// Every gate equation and every equality assertion holds.
    pub open spec fn satisfied(&self) -> bool {
        &&& forall|i: int| 0 <= i < self.gates@.len() ==> self.gate_holds(#[trigger] self.gates@[i])
        &&& forall|i: int| 0 <= i < self.equalities@.len() ==> #[trigger] self.equality_holds(i)
    }

    /// The number of rows the compiled circuit needs: one per gate and one
    /// per equality assertion.
    pub open spec fn size(&self) -> int {
        (self.gates@.len() + self.equalities@.len()) as int
    }

    /// A builder holding only the reserved zero wire.
    pub fn new() -> (r: Builder)
        ensures
            r.wf(),
            r.witnesses@.len() == 1,
            r.val(0) == 0,
            r.gates@.len() == 0,
            r.equalities@.len() == 0,
    {
        let mut witnesses: Vec<Scalar> = Vec::new();
        witnesses.push(Scalar::from_u64(0));
        Builder { witnesses, gates: Vec::new(), equalities: Vec::new() }
    }

    /// Registers a value on a new wire and returns its handle.
    pub fn append_witness(&mut self, v: Scalar) -> (r: Witness)
        requires
            old(self).wf(),
            v.wf(),
            old(self).witnesses@.len() < usize::MAX,
        ensures
            final(self).wf(),
            final(self).witnesses@ == old(self).witnesses@.push(v),
            final(self).gates@ == old(self).gates@,
            final(self).equalities@ == old(self).equalities@,
            r.index == old(self).witnesses@.len(),
    {
        let r = Witness { index: self.witnesses.len() };
        self.witnesses.push(v);
        proof {
            assert forall|i: int| 0 <= i < self.gates@.len() implies self.gate_wf(
                #[trigger] self.gates@[i],
            ) && self.gate_holds(self.gates@[i]) by {
                let g = self.gates@[i];
                assert(old(self).gate_wf(g) && old(self).gate_holds(g));
                assert(self.witnesses@[g.a as int] == old(self).witnesses@[g.a as int]);
                assert(self.witnesses@[g.b as int] == old(self).witnesses@[g.b as int]);
                assert(self.witnesses@[g.o as int] == old(self).witnesses@[g.o as int]);
            }
            assert forall|i: int| 0 <= i < self.witnesses@.len() implies (
            #[trigger] self.witnesses@[i]).wf() by {
                if i < old(self).witnesses@.len() {
                    assert(old(self).witnesses@[i].wf());
                }
            }
        }
        r
    }

    /// Evaluates a gate on the values of its input wires, puts the result
    /// on a new wire and records that gate.
    fn append_evaluated(&mut self, c: Constraint) -> (r: Witness)
        requires
            old(self).wf(),
            c.wf(),
            c.a.index < old(self).witnesses@.len(),
            c.b.index < old(self).witnesses@.len(),
            old(self).witnesses@.len() < usize::MAX,
        ensures
            final(self).wf(),
            r.index == old(self).witnesses@.len(),
            final(self).witnesses@.len() == old(self).witnesses@.len() + 1,
            final(self).witnesses@.drop_last() == old(self).witnesses@,
            final(self).val(r.index as int) == gate_output(
                c.q_m.value(),
                c.q_l.value(),
                c.q_r.value(),
                old(self).val(c.a.index as int),
                old(self).val(c.b.index as int),
            ),
            final(self).gates@ == old(self).gates@.push(
                Gate { q_m: c.q_m, q_l: c.q_l, q_r: c.q_r, a: c.a.index, b: c.b.index, o: r.index },
            ),
            final(self).equalities@ == old(self).equalities@,
    {
        let a = self.witnesses[c.a.index];
        let b = self.witnesses[c.b.index];
        proof {
            assert(self.witnesses@[c.a.index as int].wf());
            assert(self.witnesses@[c.b.index as int].wf());
        }
        let v = c.q_m.mul(&a).mul(&b).add(&c.q_l.mul(&a)).add(&c.q_r.mul(&b));
        let r = self.append_witness(v);
        let g = Gate { q_m: c.q_m, q_l: c.q_l, q_r: c.q_r, a: c.a.index, b: c.b.index, o: r.index };
        let ghost mid = *self;
        self.gates.push(g);
        proof {
            assert(self.witnesses@.drop_last() =~= old(self).witnesses@);
            assert forall|i: int| 0 <= i < self.gates@.len() implies self.gate_wf(
                #[trigger] self.gates@[i],
            ) && self.gate_holds(self.gates@[i]) by {
                if i < mid.gates@.len() {
                    assert(mid.gates@[i] == self.gates@[i]);
                }
            }
        }
        r
    }

    /// Appends an addition gate `q_l·a + q_r·b` and returns its output wire.
    pub fn gate_add(&mut self, c: Constraint) -> (r: Witness)
        requires
            old(self).wf(),
            c.wf(),
            c.a.index < old(self).witnesses@.len(),
            c.b.index < old(self).witnesses@.len(),
            old(self).witnesses@.len() < usize::MAX,
        ensures
            final(self).wf(),
            r.index == old(self).witnesses@.len(),
            final(self).witnesses@.len() == old(self).witnesses@.len() + 1,
            final(self).witnesses@.drop_last() == old(self).witnesses@,
            final(self).val(r.index as int) == gate_output(
                c.q_m.value(),
                c.q_l.value(),
                c.q_r.value(),
                old(self).val(c.a.index as int),
                old(self).val(c.b.index as int),
            ),
            final(self).gates@ == old(self).gates@.push(
                Gate { q_m: c.q_m, q_l: c.q_l, q_r: c.q_r, a: c.a.index, b: c.b.index, o: r.index },
            ),
            final(self).equalities@ == old(self).equalities@,
    {
        self.append_evaluated(c)
    }

    /// Appends a multiplication gate `q_m·a·b` and returns its output wire.
    pub fn gate_mul(&mut self, c: Constraint) -> (r: Witness)
        requires
            old(self).wf(),
            c.wf(),
            c.a.index < old(self).witnesses@.len(),
            c.b.index < old(self).witnesses@.len(),
            old(self).witnesses@.len() < usize::MAX,
        ensures
            final(self).wf(),
            r.index == old(self).witnesses@.len(),
            final(self).witnesses@.len() == old(self).witnesses@.len() + 1,
            final(self).witnesses@.drop_last() == old(self).witnesses@,
            final(self).val(r.index as int) == gate_output(
                c.q_m.value(),
                c.q_l.value(),
                c.q_r.value(),
                old(self).val(c.a.index as int),
                old(self).val(c.b.index as int),
            ),
            final(self).gates@ == old(self).gates@.push(
                Gate { q_m: c.q_m, q_l: c.q_l, q_r: c.q_r, a: c.a.index, b: c.b.index, o: r.index },
            ),
            final(self).equalities@ == old(self).equalities@,
    {
        self.append_evaluated(c)
    }

    /// Declares two wires equal.  Nothing is compared here: a violated
    /// assertion makes the builder unsatisfied.
    pub fn assert_equal(&mut self, a: Witness, b: Witness)
        requires
            old(self).wf(),
            a.index < old(self).witnesses@.len(),
            b.index < old(self).witnesses@.len(),
        ensures
            final(self).wf(),
            final(self).witnesses@ == old(self).witnesses@,
            final(self).gates@ == old(self).gates@,
            final(self).equalities@ == old(self).equalities@.push((a.index, b.index)),
    {
        self.equalities.push((a.index, b.index));
    }

    /// Checks every gate equation and every equality assertion.
    pub fn is_satisfied(&self) -> (r: bool)
        requires
            self.wf(),
        ensures
            r == self.satisfied(),
    {
        let mut i: usize = 0;
        while i < self.equalities.len()
            invariant
                self.wf(),
                0 <= i <= self.equalities@.len(),
                forall|j: int| 0 <= j < i ==> #[trigger] self.equality_holds(j),
            decreases self.equalities@.len() - i,
        {
            let (x, y) = self.equalities[i];
            proof {
                assert(self.equalities@[i as int].0 < self.witnesses@.len());
                assert(self.witnesses@[x as int].wf());
                assert(self.witnesses@[y as int].wf());
            }
            if !self.witnesses[x].equals(&self.witnesses[y]) {
                assert(!self.equality_holds(i as int));
                return false;
            }
            i = i + 1;
        }
        true
    }
}

/// In a well-formed builder every gate equation holds, whatever the wire
/// values: a builder is satisfied exactly when its equality assertions hold.
pub proof fn lemma_satisfied_iff_equalities(b: &Builder)
    requires
        b.wf(),
    ensures
        b.satisfied() <==> forall|i: int|
            0 <= i < b.equalities@.len() ==> #[trigger] b.equality_holds(i),
{
}

} // verus!
