use dusk_bytes::Serializable;
use dusk_plonk::prelude::{
    BlsScalar, Circuit, Compiler, Composer, Constraint as PlonkConstraint, Error as PlonkError,
    Proof, Prover, PublicParameters, Verifier, Witness as PlonkWitness,
};
use plonk_circuit::{compile, prepare_proof, verify, Builder, Error, Scalar, TestCircuit};
use rand_core::OsRng;

fn to_bls(s: &Scalar) -> BlsScalar {
    BlsScalar::from_bytes(&s.bytes).unwrap()
}

/// The library circuit, handed to dusk-plonk.
#[derive(Debug)]
struct Plonked(TestCircuit);

impl Default for Plonked {
    fn default() -> Self {
        Plonked(TestCircuit::zeroed())
    }
}

impl Circuit for Plonked {
    fn circuit(&self, composer: &mut Composer) -> Result<(), PlonkError> {
        let mut b = Builder::new();
        self.0.circuit(&mut b).unwrap();
        let mut wires: Vec<PlonkWitness> = vec![Composer::ZERO];
        for (i, v) in b.witnesses.iter().enumerate().skip(1) {
            let wire = match b.gates.iter().find(|g| g.o == i) {
                Some(g) => composer.gate_add(
                    PlonkConstraint::new()
                        .mult(to_bls(&g.q_m))
                        .left(to_bls(&g.q_l))
                        .right(to_bls(&g.q_r))
                        .a(wires[g.a])
                        .b(wires[g.b]),
                ),
                None => composer.append_witness(to_bls(v)),
            };
            wires.push(wire);
            for &(x, y) in b.equalities.iter().filter(|&&(x, y)| x.max(y) == i) {
                composer.assert_equal(wires[x], wires[y]);
            }
        }
        Ok(())
    }
}

fn from_bls(s: &BlsScalar) -> Scalar {
    Scalar { bytes: s.to_bytes() }
}

fn circuit(v: [u64; 8]) -> TestCircuit {
    TestCircuit {
        x1: Scalar::from_u64(v[0]),
        x2: Scalar::from_u64(v[1]),
        x3: Scalar::from_u64(v[2]),
        x4: Scalar::from_u64(v[3]),
        x5: Scalar::from_u64(v[4]),
        x6: Scalar::from_u64(v[5]),
        x7: Scalar::from_u64(v[6]),
        out: Scalar::from_u64(v[7]),
    }
}

fn keys() -> (Prover, Verifier) {
    let pp = PublicParameters::setup(1 << 6, &mut OsRng).unwrap();
    Compiler::compile::<Plonked>(&pp, b"plonk-test-2").unwrap()
}

fn prove(prover: &Prover, c: TestCircuit) -> (Proof, Vec<BlsScalar>) {
    let layout = compile(1 << 6).unwrap();
    assert!(prepare_proof(&layout, &c).is_ok());
    prover.prove(&mut OsRng, &Plonked(c)).unwrap()
}

#[test]
fn example_witness_proves_and_verifies() {
    let (prover, verifier) = keys();
    let (proof, pi) = prove(&prover, circuit([1, 2, 3, 4, 5, 6, 20, 120]));
    assert!(pi.is_empty());
    assert_eq!(verify(&verifier, &proof, &vec![]), Ok(()));
}

#[test]
fn tampered_proof_or_inputs_are_rejected() {
    let (prover, verifier) = keys();
    let (proof, _) = prove(&prover, circuit([1, 2, 3, 4, 5, 6, 20, 120]));
    assert_eq!(
        verify(&verifier, &proof, &vec![Scalar::from_u64(1)]),
        Err(Error::VerificationFailed)
    );
    let bytes = proof.to_bytes();
    for pos in [0usize, 100, 400, bytes.len() - 1] {
        let mut flipped = bytes;
        flipped[pos] ^= 1;
        if let Ok(bad) = Proof::from_bytes(&flipped) {
            assert_eq!(verify(&verifier, &bad, &vec![]), Err(Error::VerificationFailed));
        }
    }
}

#[test]
fn one_key_pair_serves_many_witnesses() {
    let (prover, verifier) = keys();
    for v in [[1, 2, 3, 4, 5, 6, 20, 120], [2, 4, 5, 3, 7, 20, 21, 420], [0, 0, 9, 9, 9, 0, 81, 0]] {
        let (proof, pi) = prove(&prover, circuit(v));
        let pi: Vec<Scalar> = pi.iter().map(from_bls).collect();
        assert_eq!(verify(&verifier, &proof, &pi), Ok(()));
    }
}

#[test]
fn proofs_differ_but_both_verify() {
    let (prover, verifier) = keys();
    let (p1, _) = prove(&prover, circuit([1, 2, 3, 4, 5, 6, 20, 120]));
    let (p2, _) = prove(&prover, circuit([1, 2, 3, 4, 5, 6, 20, 120]));
    assert_ne!(p1.to_bytes().to_vec(), p2.to_bytes().to_vec());
    assert_eq!(verify(&verifier, &p1, &vec![]), Ok(()));
    assert_eq!(verify(&verifier, &p2, &vec![]), Ok(()));
}
