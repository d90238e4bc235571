use plonk_circuit::{
    check_public_inputs, compile, layout_matches, prepare_proof, Builder, Constraint, Error,
    Scalar, TestCircuit,
};

fn s(n: u64) -> Scalar {
    Scalar::from_u64(n)
}

fn circuit(v: [u64; 8]) -> TestCircuit {
    TestCircuit {
        x1: s(v[0]),
        x2: s(v[1]),
        x3: s(v[2]),
        x4: s(v[3]),
        x5: s(v[4]),
        x6: s(v[5]),
        x7: s(v[6]),
        out: s(v[7]),
    }
}

/// The modulus minus one, little-endian.
fn minus_one() -> Scalar {
    Scalar {
        bytes: [
            0x00, 0x00, 0x00, 0x00, 0xff, 0xff, 0xff, 0xff, 0xfe, 0x5b, 0xfe, 0xff, 0x02, 0xa4,
            0xbd, 0x53, 0x05, 0xd8, 0xa1, 0x09, 0x08, 0xd8, 0x39, 0x33, 0x48, 0x7d, 0x9d, 0x29,
            0x53, 0xa7, 0xed, 0x73,
        ],
    }
}

#[test]
fn from_u64_encodes_little_endian() {
    let x = s(0x0102);
    let mut expected = [0u8; 32];
    expected[0] = 0x02;
    expected[1] = 0x01;
    assert_eq!(x.bytes, expected);
}

#[test]
fn add_and_mul_small_values() {
    assert_eq!(s(2).add(&s(3)).bytes, s(5).bytes);
    assert_eq!(s(4).mul(&s(5)).bytes, s(20).bytes);
}

#[test]
fn add_wraps_at_modulus() {
    assert_eq!(minus_one().add(&s(1)).bytes, s(0).bytes);
    assert_eq!(minus_one().add(&s(3)).bytes, s(2).bytes);
}

#[test]
fn mul_wraps_at_modulus() {
    assert_eq!(minus_one().mul(&minus_one()).bytes, s(1).bytes);
    assert_eq!(minus_one().mul(&s(2)).add(&s(2)).bytes, s(0).bytes);
}

#[test]
fn equals_compares_values() {
    assert!(s(7).equals(&s(7)));
    assert!(!s(7).equals(&s(8)));
    assert!(!minus_one().equals(&s(0)));
}

#[test]
fn gate_add_evaluates_linear_combination() {
    let mut b = Builder::new();
    let x = b.append_witness(s(3));
    let y = b.append_witness(s(4));
    let r = b.gate_add(Constraint::new().left(2).right(5).a(x).b(y));
    assert_eq!(r.index, 3);
    assert_eq!(b.witnesses[3].bytes, s(26).bytes);
    assert_eq!(b.gates.len(), 1);
    assert!(b.is_satisfied());
}

#[test]
fn gate_mul_evaluates_product() {
    let mut b = Builder::new();
    let x = b.append_witness(s(3));
    let y = b.append_witness(s(4));
    let r = b.gate_mul(Constraint::new().mult(1).a(x).b(y));
    assert_eq!(b.witnesses[r.index].bytes, s(12).bytes);
}

#[test]
fn assert_equal_is_checked_by_satisfaction() {
    let mut b = Builder::new();
    let x = b.append_witness(s(3));
    let y = b.append_witness(s(3));
    let z = b.append_witness(s(4));
    b.assert_equal(x, y);
    assert!(b.is_satisfied());
    b.assert_equal(x, z);
    assert_eq!(b.equalities.len(), 2);
    assert!(!b.is_satisfied());
}

#[test]
fn valid_witness_is_proved() {
    let layout = compile(1 << 12).unwrap();
    let c = circuit([1, 2, 3, 4, 5, 6, 20, 120]);
    let b = prepare_proof(&layout, &c).unwrap();
    assert!(b.is_satisfied());
    assert_eq!(b.witnesses.len(), 13);
    assert_eq!(b.witnesses[8].bytes, s(120).bytes);
    assert!(check_public_inputs(&vec![], &vec![]).is_ok());
}

#[test]
fn broken_output_is_unsatisfied() {
    let layout = compile(1 << 12).unwrap();
    let c = circuit([1, 2, 3, 4, 5, 6, 20, 121]);
    assert_eq!(prepare_proof(&layout, &c).err(), Some(Error::ConstraintUnsatisfied));
}

#[test]
fn each_broken_relation_is_unsatisfied() {
    let layout = compile(1 << 12).unwrap();
    for v in [
        [1, 3, 3, 4, 5, 9, 20, 180],
        [1, 2, 3, 4, 5, 7, 20, 140],
        [1, 2, 3, 4, 5, 6, 21, 126],
        [2, 2, 3, 4, 5, 6, 20, 120],
    ] {
        assert_eq!(prepare_proof(&layout, &circuit(v)).err(), Some(Error::ConstraintUnsatisfied));
    }
}

#[test]
fn layout_is_reused_for_many_witnesses() {
    let layout = compile(1 << 12).unwrap();
    for v in [
        [1, 2, 3, 4, 5, 6, 20, 120],
        [2, 4, 5, 3, 7, 20, 21, 420],
        [0, 0, 9, 9, 9, 0, 81, 0],
    ] {
        assert!(prepare_proof(&layout, &circuit(v)).is_ok());
    }
}

#[test]
fn capacity_boundary() {
    assert_eq!(compile(7).err(), Some(Error::CapacityExceeded));
    assert_eq!(compile(0).err(), Some(Error::CapacityExceeded));
    let layout = compile(8).unwrap();
    assert_eq!(layout.gates.len() + layout.equalities.len(), 8);
    assert_eq!(layout.witness_count, 13);
}

#[test]
fn foreign_layout_is_a_shape_mismatch() {
    let other = Builder::new().shape();
    let c = circuit([1, 2, 3, 4, 5, 6, 20, 120]);
    assert_eq!(prepare_proof(&other, &c).err(), Some(Error::ShapeMismatch));
}

#[test]
fn compiled_layout_matches_every_run() {
    let layout = compile(16).unwrap();
    let mut b = Builder::new();
    circuit([7, 1, 1, 1, 1, 1, 1, 1]).circuit(&mut b).unwrap();
    assert!(layout_matches(&layout, &b));
    b.assert_equal(plonk_circuit::Witness { index: 1 }, plonk_circuit::Witness { index: 2 });
    assert!(!layout_matches(&layout, &b));
}

#[test]
fn public_inputs_must_match_in_order() {
    assert!(check_public_inputs(&vec![s(1), s(2)], &vec![s(1), s(2)]).is_ok());
    assert_eq!(
        check_public_inputs(&vec![s(1), s(2)], &vec![s(2), s(1)]),
        Err(Error::VerificationFailed)
    );
    assert_eq!(check_public_inputs(&vec![], &vec![s(1)]), Err(Error::VerificationFailed));
}

#[test]
fn default_circuit_is_all_zero_and_satisfied() {
    let c = TestCircuit::default();
    assert_eq!(c.out.bytes, [0u8; 32]);
    let layout = compile(8).unwrap();
    assert!(prepare_proof(&layout, &c).is_ok());
}

#[test]
fn verdict_maps_every_failure() {
    assert_eq!(plonk_circuit::verdict(Ok(())), Ok(()));
    assert_eq!(
        plonk_circuit::verdict(Err(dusk_plonk::prelude::Error::ProofVerificationError)),
        Err(Error::VerificationFailed)
    );
}
