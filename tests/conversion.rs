use ark_ff::{BigInteger, PrimeField};
use circom_bulletproofs::conversion::{
    circom_to_bulletproofs, CircomCircuit, Constraint, ConversionError, R1cs,
};
use circom_bulletproofs::padding::padded_size;
use circom_bulletproofs::scalar::Scalar;

fn s(n: u64) -> Scalar {
    Scalar::from_u64(n)
}

fn ark_limbs(f: ark_bn254::Fr) -> Scalar {
    let l = f.into_bigint().0;
    Scalar { limb0: l[0], limb1: l[1], limb2: l[2], limb3: l[3] }
}

fn neg_of(n: u64) -> Scalar {
    ark_limbs(-ark_bn254::Fr::from(n))
}

fn term(entries: &[(usize, u64)]) -> Vec<(usize, Scalar)> {
    entries.iter().map(|&(i, c)| (i, s(c))).collect()
}

fn constraint(a: &[(usize, u64)], b: &[(usize, u64)], c: &[(usize, u64)]) -> Constraint {
    Constraint { a: term(a), b: term(b), c: term(c) }
}

fn circuit(
    num_variables: usize,
    constraints: Vec<Constraint>,
    wire_mapping: Option<Vec<usize>>,
    witness: Option<Vec<u64>>,
) -> CircomCircuit {
    CircomCircuit {
        r1cs: R1cs { num_variables, constraints, wire_mapping },
        witness: witness.map(|w| w.into_iter().map(s).collect()),
    }
}

/// `a * b = c` and `c * 1 = out` over variables `[1, a, b, c]`, with `out` the
/// same wire as `c`.
fn product_circuit() -> CircomCircuit {
    circuit(
        4,
        vec![
            constraint(&[(1, 1)], &[(2, 1)], &[(3, 1)]),
            constraint(&[(3, 1)], &[(0, 1)], &[(3, 1)]),
        ],
        None,
        Some(vec![1, 3, 4, 12]),
    )
}

#[test]
fn padded_size_is_next_power_of_two() {
    assert_eq!(padded_size(0), 1);
    assert_eq!(padded_size(1), 1);
    assert_eq!(padded_size(2), 2);
    assert_eq!(padded_size(3), 4);
    assert_eq!(padded_size(4), 4);
    assert_eq!(padded_size(5), 8);
    assert_eq!(padded_size(1000), 1024);
    assert_eq!(padded_size(1024), 1024);
    assert_eq!(padded_size(1025), 2048);
    assert_eq!(padded_size(1usize << 40), 1usize << 40);
}

#[test]
fn output_width_is_a_power_of_two() {
    let cc = circuit(5, vec![constraint(&[(4, 2)], &[(0, 1)], &[(1, 2)])], None, Some(vec![1, 2, 3, 4, 5]));
    let (circuit, witness) = circom_to_bulletproofs(&cc).unwrap();
    assert_eq!(circuit.w_l[0].len(), 8);
    assert_eq!(circuit.w_r[0].len(), 8);
    assert_eq!(circuit.w_o[0].len(), 8);
    assert_eq!(circuit.w_v[0].len(), 8);
    assert_eq!(witness.v.len(), 8);
    assert_eq!(witness.a_l.len(), 8);
    assert_eq!(witness.gamma.len(), 8);
}

#[test]
fn padding_entries_are_zero() {
    let cc = circuit(
        3,
        vec![constraint(&[(0, 7), (2, 5)], &[(1, 6), (2, 9)], &[(2, 4)])],
        None,
        Some(vec![1, 2, 3]),
    );
    let (circuit, witness) = circom_to_bulletproofs(&cc).unwrap();
    assert_eq!(circuit.w_l[0], vec![s(7), s(0), s(5), s(0)]);
    assert_eq!(circuit.w_r[0], vec![s(0), s(6), s(9), s(0)]);
    assert_eq!(circuit.w_o[0], vec![s(0), s(0), neg_of(4), s(0)]);
    assert_eq!(circuit.w_v[0], vec![s(0); 4]);
    assert_eq!(witness.v, vec![s(1), s(2), s(3), s(0)]);
}

#[test]
fn coefficients_are_placed_and_c_negated() {
    let cc = circuit(
        4,
        vec![
            constraint(&[(1, 2)], &[(2, 3)], &[(3, 5)]),
            constraint(&[(0, 11)], &[(3, 13)], &[(1, 17), (0, 19)]),
        ],
        None,
        Some(vec![1, 2, 3, 4]),
    );
    let (circuit, _) = circom_to_bulletproofs(&cc).unwrap();
    assert_eq!(circuit.w_l[0][1], s(2));
    assert_eq!(circuit.w_r[0][2], s(3));
    assert_eq!(circuit.w_o[0][3], neg_of(5));
    assert_eq!(circuit.w_l[1][0], s(11));
    assert_eq!(circuit.w_r[1][3], s(13));
    assert_eq!(circuit.w_o[1][1], neg_of(17));
    assert_eq!(circuit.w_o[1][0], neg_of(19));
    assert_ne!(circuit.w_o[0][3], s(5));
}

#[test]
fn repeated_index_keeps_last_coefficient() {
    let cc = circuit(2, vec![constraint(&[(1, 2), (1, 9)], &[(0, 1)], &[(1, 3), (1, 4)])], None, Some(vec![1, 1]));
    let (circuit, _) = circom_to_bulletproofs(&cc).unwrap();
    assert_eq!(circuit.w_l[0], vec![s(0), s(9)]);
    assert_eq!(circuit.w_o[0], vec![s(0), neg_of(4)]);
}

#[test]
fn conversion_is_deterministic() {
    let cc = product_circuit();
    let (c1, w1) = circom_to_bulletproofs(&cc).unwrap();
    let (c2, w2) = circom_to_bulletproofs(&cc).unwrap();
    assert_eq!(c1, c2);
    assert_eq!(w1, w2);
}

#[test]
fn zero_variables_is_empty_circuit() {
    let cc = circuit(0, vec![constraint(&[(0, 1)], &[(0, 1)], &[(0, 1)])], None, Some(vec![1]));
    assert_eq!(circom_to_bulletproofs(&cc), Err(ConversionError::EmptyCircuit));
}

#[test]
fn zero_constraints_is_empty_circuit() {
    let cc = circuit(5, vec![], None, Some(vec![1, 2, 3, 4, 5]));
    assert_eq!(circom_to_bulletproofs(&cc), Err(ConversionError::EmptyCircuit));
}

#[test]
fn absent_witness_is_missing_witness() {
    let mut cc = product_circuit();
    cc.witness = None;
    assert_eq!(circom_to_bulletproofs(&cc), Err(ConversionError::MissingWitness));
    let empty = circuit(0, vec![], None, None);
    assert_eq!(circom_to_bulletproofs(&empty), Err(ConversionError::MissingWitness));
}

#[test]
fn out_of_range_index_is_invalid_constraint() {
    let cc = circuit(3, vec![constraint(&[(0, 1)], &[(3, 1)], &[(2, 1)])], None, Some(vec![1, 2, 3]));
    assert_eq!(circom_to_bulletproofs(&cc), Err(ConversionError::InvalidConstraint));
    let cc = circuit(
        4,
        vec![constraint(&[(0, 1)], &[(1, 1)], &[(2, 1)]), constraint(&[(0, 1)], &[(1, 1)], &[(9, 1)])],
        None,
        Some(vec![1, 2, 3, 4]),
    );
    assert_eq!(circom_to_bulletproofs(&cc), Err(ConversionError::InvalidConstraint));
}

#[test]
fn wire_mapping_reorders_witness() {
    let cc = circuit(3, vec![constraint(&[(0, 1)], &[(0, 1)], &[(0, 1)])], Some(vec![2, 0, 1]), Some(vec![10, 11, 12]));
    let (_, witness) = circom_to_bulletproofs(&cc).unwrap();
    assert_eq!(witness.v[..3].to_vec(), vec![s(12), s(10), s(11)]);
    assert_eq!(witness.v, vec![s(12), s(10), s(11), s(0)]);
}

#[test]
fn wire_mapping_out_of_range_gives_zero() {
    let cc = circuit(4, vec![constraint(&[(0, 1)], &[(0, 1)], &[(0, 1)])], Some(vec![1, 7]), Some(vec![10, 11]));
    let (_, witness) = circom_to_bulletproofs(&cc).unwrap();
    assert_eq!(witness.v, vec![s(11), s(0), s(0), s(0)]);
}

#[test]
fn end_to_end_product_circuit() {
    let cc = product_circuit();
    let (circuit, witness) = circom_to_bulletproofs(&cc).unwrap();
    for m in [&circuit.w_l, &circuit.w_r, &circuit.w_o, &circuit.w_v] {
        assert_eq!(m.len(), 2);
        assert!(m.iter().all(|row| row.len() == 4));
    }
    assert_eq!(circuit.c, vec![s(0), s(0)]);
    assert_eq!(circuit.w_l, vec![vec![s(0), s(1), s(0), s(0)], vec![s(0), s(0), s(0), s(1)]]);
    assert_eq!(circuit.w_r, vec![vec![s(0), s(0), s(1), s(0)], vec![s(1), s(0), s(0), s(0)]]);
    assert_eq!(
        circuit.w_o,
        vec![vec![s(0), s(0), s(0), neg_of(1)], vec![s(0), s(0), s(0), neg_of(1)]]
    );
    assert_eq!(witness.v, vec![s(1), s(3), s(4), s(12)]);
    assert_eq!(witness.a_l, vec![s(0); 4]);
    assert_eq!(witness.a_r, vec![s(0); 4]);
    assert_eq!(witness.a_o, vec![s(0); 4]);
    assert_eq!(witness.gamma, vec![s(0); 4]);
}

#[test]
fn negate_matches_field_negation() {
    assert_eq!(s(0).negate(), s(0));
    assert_eq!(s(1).negate(), neg_of(1));
    assert_eq!(s(12345).negate(), neg_of(12345));
    assert_eq!(s(12345).negate().negate(), s(12345));
    let minus_one = neg_of(1);
    assert_eq!(minus_one.limb0, 0x43e1f593f0000000);
    assert_eq!(minus_one.limb3, 0x30644e72e131a029);
}

#[test]
fn negate_reduces_oversized_limbs() {
    let modulus = ark_bn254::Fr::MODULUS.0;
    let p_plus_5 = Scalar { limb0: modulus[0] + 5, limb1: modulus[1], limb2: modulus[2], limb3: modulus[3] };
    assert_eq!(p_plus_5.negate(), neg_of(5));
    let max = Scalar { limb0: u64::MAX, limb1: u64::MAX, limb2: u64::MAX, limb3: u64::MAX };
    let bytes = ark_ff::BigInt::new([u64::MAX; 4]).to_bytes_le();
    assert_eq!(max.negate(), ark_limbs(-ark_bn254::Fr::from_le_bytes_mod_order(&bytes)));
}
