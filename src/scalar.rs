use dusk_plonk::prelude::BlsScalar;
use vstd::arithmetic::div_mod::lemma_small_mod;
use vstd::prelude::*;

verus! {

/// The order of the scalar field of BLS12-381,
/// 0x73eda753299d7d483339d80809a1d80553bda402fffe5bfeffffffff00000001.
pub open spec fn modulus() -> int {
    0xffff_ffff_0000_0001int
        + 0x53bd_a402_fffe_5bfeint * 0x1_0000_0000_0000_0000int
        + 0x3339_d808_09a1_d805int * 0x1_0000_0000_0000_0000int * 0x1_0000_0000_0000_0000int
        + 0x73ed_a753_299d_7d48int * 0x1_0000_0000_0000_0000int * 0x1_0000_0000_0000_0000int
        * 0x1_0000_0000_0000_0000int
}

/// The integer that a little-endian byte sequence encodes.
pub open spec fn le_value(s: Seq<u8>) -> nat
    decreases s.len(),
{
    if s.len() == 0 {
        0
    } else {
        s[0] as nat + 256 * le_value(s.drop_first())
    }
}

/// Sum in the field.
pub open spec fn fe_add(x: int, y: int) -> int {
    (x + y) % modulus()
}

/// Product in the field.
pub open spec fn fe_mul(x: int, y: int) -> int {
    (x * y) % modulus()
}

/// Below the modulus, field sums and products are the integer ones.
pub proof fn lemma_fe_exact(x: int, y: int)
    ensures
        0 <= x + y < modulus() ==> fe_add(x, y) == x + y,
        0 <= x * y < modulus() ==> fe_mul(x, y) == x * y,
{
    let m = modulus();
    assert(m > 0);
    if 0 <= x + y < m {
        lemma_small_mod((x + y) as nat, m as nat);
    }
    if 0 <= x * y < m {
        lemma_small_mod((x * y) as nat, m as nat);
    }
}

/// Two byte sequences of one length that encode the same integer are equal.
pub proof fn lemma_le_value_injective(s: Seq<u8>, t: Seq<u8>)
    requires
        s.len() == t.len(),
        le_value(s) == le_value(t),
    ensures
        s == t,
    decreases s.len(),
{
    if s.len() > 0 {
        let vs = le_value(s.drop_first()) as int;
        let vt = le_value(t.drop_first()) as int;
        let s0 = s[0] as int;
        let t0 = t[0] as int;
        assert(s0 == t0 && vs == vt) by (nonlinear_arith)
            requires
                s0 + 256 * vs == t0 + 256 * vt,
                0 <= s0 < 256,
                0 <= t0 < 256,
                0 <= vs,
                0 <= vt,
        ;
        lemma_le_value_injective(s.drop_first(), t.drop_first());
        assert forall|i: int| 0 <= i < s.len() implies s[i] == t[i] by {
            if i > 0 {
                assert(s[i] == s.drop_first()[i - 1]);
                assert(t[i] == t.drop_first()[i - 1]);
            }
        }
        assert(s =~= t);
    }
}

/// An element of the scalar field of BLS12-381, held in its canonical
/// little-endian encoding.
#[derive(Clone, Copy, Debug)]
pub struct Scalar {
    pub bytes: [u8; 32],
}

impl Scalar {
    /// The integer in `0 .. modulus()` that this element stands for.
    pub open spec fn value(&self) -> int {
        le_value(self.bytes@) as int
    }

    /// The encoding is canonical: below the modulus.
    pub open spec fn wf(&self) -> bool {
        self.value() < modulus()
    }

    /// The element `n`.
    pub fn from_u64(n: u64) -> (r: Scalar)
        ensures
            r.wf(),
            r.value() == n as int,
    {
        bls_from_u64(n)
    }

    /// The sum of two elements.
    pub fn add(&self, other: &Scalar) -> (r: Scalar)
        requires
            self.wf(),
            other.wf(),
        ensures
            r.wf(),
            r.value() == fe_add(self.value(), other.value()),
    {
        bls_add(self, other)
    }

    /// The product of two elements.
    pub fn mul(&self, other: &Scalar) -> (r: Scalar)
        requires
            self.wf(),
            other.wf(),
        ensures
            r.wf(),
            r.value() == fe_mul(self.value(), other.value()),
    {
        bls_mul(self, other)
    }

    /// Whether the two elements are the same.
    pub fn equals(&self, other: &Scalar) -> (r: bool)
        requires
            self.wf(),
            other.wf(),
        ensures
            r == (self.value() == other.value()),
    {
        let mut i: usize = 0;
        while i < 32
            invariant
                0 <= i <= 32,
                forall|j: int| 0 <= j < i ==> self.bytes@[j] == other.bytes@[j],
            decreases 32 - i,
        {
            if self.bytes[i] != other.bytes[i] {
                proof {
                    if self.value() == other.value() {
                        lemma_le_value_injective(self.bytes@, other.bytes@);
                    }
                }
                return false;
            }
            i = i + 1;
        }
        assert(self.bytes@ =~= other.bytes@);
        true
    }
}

/// Relies on `BlsScalar::from(u64)` and `BlsScalar::to_bytes`: the
/// element `n`, encoded in 32 little-endian bytes.
#[verifier::external_body]
fn bls_from_u64(n: u64) -> (r: Scalar)
    ensures
        r.wf(),
        r.value() == n as int,
{
    Scalar { bytes: BlsScalar::from(n).to_bytes() }
}

/// Relies on `BlsScalar::from_bytes`, `+` and `BlsScalar::to_bytes`: field
/// addition on canonical encodings.  `from_bytes` accepts every canonical
/// encoding, so the unwraps do not fail.
#[verifier::external_body]
fn bls_add(a: &Scalar, b: &Scalar) -> (r: Scalar)
    requires
        a.wf(),
        b.wf(),
    ensures
        r.wf(),
        r.value() == fe_add(a.value(), b.value()),
{
    let x = BlsScalar::from_bytes(&a.bytes).unwrap();
    let y = BlsScalar::from_bytes(&b.bytes).unwrap();
    Scalar { bytes: (x + y).to_bytes() }
}

/// Relies on `BlsScalar::from_bytes`, `*` and `BlsScalar::to_bytes`: field
/// multiplication on canonical encodings.  `from_bytes` accepts every
/// canonical encoding, so the unwraps do not fail.
#[verifier::external_body]
fn bls_mul(a: &Scalar, b: &Scalar) -> (r: Scalar)
    requires
        a.wf(),
        b.wf(),
    ensures
        r.wf(),
        r.value() == fe_mul(a.value(), b.value()),
{
    let x = BlsScalar::from_bytes(&a.bytes).unwrap();
    let y = BlsScalar::from_bytes(&b.bytes).unwrap();
    Scalar { bytes: (x * y).to_bytes() }
}

} // verus!
