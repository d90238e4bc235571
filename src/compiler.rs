use crate::builder::{Builder, Gate};
use crate::scalar::Scalar;
use crate::circuit::{gate_is, lemma_circuit_satisfied, Error, TestCircuit};
use vstd::prelude::*;

verus! {

/// The two gates have the same selector values and the same wiring.
pub open spec fn same_gate(g: Gate, h: Gate) -> bool {
    &&& g.q_m.value() == h.q_m.value()
    &&& g.q_l.value() == h.q_l.value()
    &&& g.q_r.value() == h.q_r.value()
    &&& g.a == h.a
    &&& g.b == h.b
    &&& g.o == h.o
}

/// The fixed layout of a circuit: how many wires it has, its gates and its
/// equality assertions, with no wire values.
#[derive(Debug)]
pub struct Shape {
    pub witness_count: usize,
    pub gates: Vec<Gate>,
    pub equalities: Vec<(usize, usize)>,
}

impl Shape {
    pub open spec fn wf(&self) -> bool {
        forall|i: int|
            0 <= i < self.gates@.len() ==> (#[trigger] self.gates@[i]).q_m.wf()
                && self.gates@[i].q_l.wf() && self.gates@[i].q_r.wf()
    }

    /// The builder has exactly this layout.
    pub open spec fn describes(&self, b: Builder) -> bool {
        &&& self.witness_count == b.witnesses@.len()
        &&& self.gates@.len() == b.gates@.len()
        &&& forall|i: int|
            0 <= i < self.gates@.len() ==> #[trigger] same_gate(self.gates@[i], b.gates@[i])
        &&& self.equalities@ == b.equalities@
    }

    /// The number of rows: one per gate and one per equality assertion.
    pub open spec fn size(&self) -> int {
        (self.gates@.len() + self.equalities@.len()) as int
    }

    /// The layout of [`TestCircuit`] issued on a fresh builder: the zero
    /// wire, the eight secret wires 1 to 8, and one output wire per gate.
    pub open spec fn is_test_layout(&self) -> bool {
        &&& self.witness_count == 13
        &&& self.gates@.len() == 4
        &&& gate_is(self.gates@[0], 0, 1, 1, 1, 1, 9)
        &&& gate_is(self.gates@[1], 1, 0, 0, 2, 3, 10)
        &&& gate_is(self.gates@[2], 1, 0, 0, 4, 5, 11)
        &&& gate_is(self.gates@[3], 1, 0, 0, 6, 7, 12)
        &&& self.equalities@ == seq![(9usize, 2usize), (10usize, 6usize), (11usize, 7usize), (12usize, 8usize)]
    }
}

/// Wires 1 to 8 of the builder hold the circuit's secret values.
pub open spec fn carries(c: TestCircuit, b: Builder) -> bool {
    &&& b.witnesses@.len() >= 9
    &&& b.val(1) == c.x1.value()
    &&& b.val(2) == c.x2.value()
    &&& b.val(3) == c.x3.value()
    &&& b.val(4) == c.x4.value()
    &&& b.val(5) == c.x5.value()
    &&& b.val(6) == c.x6.value()
    &&& b.val(7) == c.x7.value()
    &&& b.val(8) == c.out.value()
}

/// The two builders have the same layout, whatever their wire values.
pub open spec fn same_layout(b1: Builder, b2: Builder) -> bool {
    &&& b1.witnesses@.len() == b2.witnesses@.len()
    &&& b1.gates@.len() == b2.gates@.len()
    &&& forall|i: int| 0 <= i < b1.gates@.len() ==> #[trigger] same_gate(b1.gates@[i], b2.gates@[i])
    &&& b1.equalities@ == b2.equalities@
}

/// What proving a witness against a compiled layout gives: the layout must
/// be the circuit's own, then the witness must meet the relations.
pub open spec fn prove_outcome(layout: Shape, c: TestCircuit) -> Result<(), Error> {
    if !layout.is_test_layout() {
        Err(Error::ShapeMismatch)
    } else if !c.relation() {
        Err(Error::ConstraintUnsatisfied)
    } else {
        Ok(())
    }
}

impl Builder {
    /// The layout of what was issued so far.
    pub fn shape(&self) -> (r: Shape)
        requires
            self.wf(),
        ensures
            r.wf(),
            r.describes(*self),
    {
        let mut gates: Vec<Gate> = Vec::new();
        let mut i: usize = 0;
        while i < self.gates.len()
            invariant
                self.wf(),
                0 <= i <= self.gates@.len(),
                gates@ == self.gates@.subrange(0, i as int),
            decreases self.gates@.len() - i,
        {
            gates.push(self.gates[i]);
            i = i + 1;
            assert(gates@ =~= self.gates@.subrange(0, i as int));
        }
        let mut equalities: Vec<(usize, usize)> = Vec::new();
        let mut j: usize = 0;
        while j < self.equalities.len()
            invariant
                0 <= j <= self.equalities@.len(),
                equalities@ == self.equalities@.subrange(0, j as int),
            decreases self.equalities@.len() - j,
        {
            equalities.push(self.equalities[j]);
            j = j + 1;
            assert(equalities@ =~= self.equalities@.subrange(0, j as int));
        }
        assert(gates@ =~= self.gates@);
        assert(equalities@ =~= self.equalities@);
        let r = Shape { witness_count: self.witnesses.len(), gates, equalities };
        assert forall|k: int| 0 <= k < r.gates@.len() implies (#[trigger] r.gates@[k]).q_m.wf()
            && r.gates@[k].q_l.wf() && r.gates@[k].q_r.wf() by {
            assert(self.gate_wf(self.gates@[k]));
        }
        r
    }
}

/// Whether the layout is exactly that of the builder.
pub fn layout_matches(layout: &Shape, b: &Builder) -> (r: bool)
    requires
        layout.wf(),
        b.wf(),
    ensures
        r == layout.describes(*b),
{
    if layout.witness_count != b.witnesses.len() || layout.gates.len() != b.gates.len()
        || layout.equalities.len() != b.equalities.len() {
        return false;
    }
    let mut i: usize = 0;
    while i < layout.gates.len()
        invariant
            layout.wf(),
            b.wf(),
            layout.gates@.len() == b.gates@.len(),
            0 <= i <= layout.gates@.len(),
            forall|k: int| 0 <= k < i ==> #[trigger] same_gate(layout.gates@[k], b.gates@[k]),
        decreases layout.gates@.len() - i,
    {
        let g = layout.gates[i];
        let h = b.gates[i];
        proof {
            assert(b.gate_wf(b.gates@[i as int]));
        }
        if !(g.q_m.equals(&h.q_m) && g.q_l.equals(&h.q_l) && g.q_r.equals(&h.q_r) && g.a == h.a
            && g.b == h.b && g.o == h.o) {
            assert(!same_gate(layout.gates@[i as int], b.gates@[i as int]));
            return false;
        }
        i = i + 1;
    }
    let mut j: usize = 0;
    while j < layout.equalities.len()
        invariant
            layout.equalities@.len() == b.equalities@.len(),
            0 <= j <= layout.equalities@.len(),
            forall|k: int| 0 <= k < j ==> layout.equalities@[k] == b.equalities@[k],
        decreases layout.equalities@.len() - j,
    {
        let (x, y) = layout.equalities[j];
        let (u, v) = b.equalities[j];
        if x != u || y != v {
            return false;
        }
        j = j + 1;
    }
    assert(layout.equalities@ =~= b.equalities@);
    true
}

/// Runs the circuit on a fresh builder.
fn run(c: &TestCircuit) -> (r: Builder)
    requires
        c.wf(),
    ensures
        r.wf(),
        r.witnesses@.len() == 13,
        r.gates@.len() == 4,
        gate_is(r.gates@[0], 0, 1, 1, 1, 1, 9),
        gate_is(r.gates@[1], 1, 0, 0, 2, 3, 10),
        gate_is(r.gates@[2], 1, 0, 0, 4, 5, 11),
        gate_is(r.gates@[3], 1, 0, 0, 6, 7, 12),
        r.equalities@ == seq![(9usize, 2usize), (10usize, 6usize), (11usize, 7usize), (12usize, 8usize)],
        r.satisfied() <==> c.relation(),
        carries(*c, r),
{
    let mut b = Builder::new();
    let ghost b0 = b;
    let _ = c.circuit(&mut b);
    proof {
        assert(b.gates@.subrange(0, 0) =~= b0.gates@);
        assert(b.equalities@ =~= seq![(9usize, 2usize), (10usize, 6usize), (11usize, 7usize), (12usize, 8usize)]);
        lemma_circuit_satisfied(*c, b0, b);
    }
    b
}

/// Fixes the circuit's layout from a zeroed witness and checks it against
/// the number of rows the public parameters support.  Only this library's
/// rows are counted, one per gate and one per equality assertion; a proof
/// system may add constant wires and padding rows of its own on top.
pub fn compile(capacity: usize) -> (r: Result<Shape, Error>)
    ensures
        r is Ok <==> 8 <= capacity,
        r is Err ==> r == Err::<Shape, Error>(Error::CapacityExceeded),
        r matches Ok(s) ==> s.wf() && s.is_test_layout() && s.size() <= capacity,
{
    let b = run(&TestCircuit::zeroed());
    let s = b.shape();
    if s.gates.len() + s.equalities.len() > capacity {
        Err(Error::CapacityExceeded)
    } else {
        assert forall|i: int| 0 <= i < 4 implies gate_is(#[trigger] s.gates@[i], b.gates@[i].q_m.value(), b.gates@[i].q_l.value(), b.gates@[i].q_r.value(), b.gates@[i].a as int, b.gates@[i].b as int, b.gates@[i].o as int) by {
            assert(same_gate(s.gates@[i], b.gates@[i]));
        }
        Ok(s)
    }
}

/// Runs the circuit with the real witness, checks that it issues the
/// compiled layout and that the witness satisfies every gate and assertion,
/// and hands back the builder whose wire values a proof is made from.
pub fn prepare_proof(layout: &Shape, c: &TestCircuit) -> (r: Result<Builder, Error>)
    requires
        layout.wf(),
        c.wf(),
    ensures
        r is Ok <==> prove_outcome(*layout, *c) is Ok,
        r matches Err(e) ==> prove_outcome(*layout, *c) == Err::<(), Error>(e),
        r matches Ok(b) ==> b.wf() && b.satisfied() && layout.describes(b)
            && carries(*c, b),
{
    let b = run(c);
    if !layout_matches(layout, &b) {
        proof {
            if layout.is_test_layout() {
                assert forall|i: int| 0 <= i < 4 implies #[trigger] same_gate(layout.gates@[i], b.gates@[i]) by {
                }
            }
        }
        return Err(Error::ShapeMismatch);
    }
    proof {
        assert(same_gate(layout.gates@[0], b.gates@[0]));
        assert(same_gate(layout.gates@[1], b.gates@[1]));
        assert(same_gate(layout.gates@[2], b.gates@[2]));
        assert(same_gate(layout.gates@[3], b.gates@[3]));
    }
    if !b.is_satisfied() {
        return Err(Error::ConstraintUnsatisfied);
    }
    Ok(b)
}

/// The values of a sequence of field elements.
pub open spec fn values(s: Seq<Scalar>) -> Seq<int> {
    s.map_values(|x: Scalar| x.value())
}

/// Checks that the public inputs given to the verifier are those the prover
/// exposed, element for element and in order.
pub fn check_public_inputs(exposed: &Vec<Scalar>, given: &Vec<Scalar>) -> (r: Result<(), Error>)
    requires
        forall|i: int| 0 <= i < exposed@.len() ==> (#[trigger] exposed@[i]).wf(),
        forall|i: int| 0 <= i < given@.len() ==> (#[trigger] given@[i]).wf(),
    ensures
        r is Ok <==> values(exposed@) == values(given@),
        r is Err ==> r == Err::<(), Error>(Error::VerificationFailed),
{
    if exposed.len() != given.len() {
        proof {
            assert(values(exposed@).len() != values(given@).len());
        }
        return Err(Error::VerificationFailed);
    }
    let mut i: usize = 0;
    while i < exposed.len()
        invariant
            exposed@.len() == given@.len(),
            0 <= i <= exposed@.len(),
            forall|j: int| 0 <= j < exposed@.len() ==> (#[trigger] exposed@[j]).wf(),
            forall|j: int| 0 <= j < given@.len() ==> (#[trigger] given@[j]).wf(),
            forall|j: int| 0 <= j < i ==> exposed@[j].value() == #[trigger] given@[j].value(),
        decreases exposed@.len() - i,
    {
        if !exposed[i].equals(&given[i]) {
            proof {
                assert(values(exposed@)[i as int] != values(given@)[i as int]);
            }
            return Err(Error::VerificationFailed);
        }
        i = i + 1;
    }
    assert(values(exposed@) =~= values(given@));
    Ok(())
}

/// Against the layout that `compile` fixes, a witness is proved exactly
/// when it meets the circuit's relations, and one that breaks a relation is
/// refused as unsatisfied rather than proved.
pub proof fn lemma_proof_iff_relation(layout: Shape, c: TestCircuit)
    requires
        layout.is_test_layout(),
        c.wf(),
    ensures
        prove_outcome(layout, c) is Ok <==> c.relation(),
        !c.relation() ==> prove_outcome(layout, c) == Err::<(), Error>(Error::ConstraintUnsatisfied),
{
}

/// The layout the circuit issues does not depend on the witness: two runs
/// on builders of one layout leave builders of one layout, so a layout
/// compiled once serves every later witness.
pub proof fn lemma_layout_independent_of_witness(
    c1: TestCircuit,
    c2: TestCircuit,
    old1: Builder,
    old2: Builder,
    new1: Builder,
    new2: Builder,
)
    requires
        c1.wf(),
        c2.wf(),
        old1.wf(),
        old2.wf(),
        same_layout(old1, old2),
        c1.appended(old1, new1),
        c2.appended(old2, new2),
    ensures
        same_layout(new1, new2),
{
    let m = old1.gates@.len() as int;
    assert forall|i: int| 0 <= i < new1.gates@.len() implies #[trigger] same_gate(
        new1.gates@[i],
        new2.gates@[i],
    ) by {
        if i < m {
            assert(new1.gates@.subrange(0, m)[i] == new1.gates@[i]);
            assert(new2.gates@.subrange(0, m)[i] == new2.gates@[i]);
            assert(same_gate(old1.gates@[i], old2.gates@[i]));
        }
    }
}

/// Every witness of a sequence is proved against one compiled layout
/// exactly when it meets the relations: no run ever finds another layout.
pub proof fn lemma_layout_reuse(layout: Shape, cs: Seq<TestCircuit>)
    requires
        layout.is_test_layout(),
        forall|i: int| 0 <= i < cs.len() ==> (#[trigger] cs[i]).wf(),
    ensures
        forall|i: int|
            0 <= i < cs.len() ==> (#[trigger] prove_outcome(layout, cs[i]) is Ok <==> cs[i].relation())
                && prove_outcome(layout, cs[i]) != Err::<(), Error>(Error::ShapeMismatch),
{
}

} // verus!
