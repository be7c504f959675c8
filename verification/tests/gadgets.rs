use ark_ec::{CurveGroup, PrimeGroup};
use ark_ed_on_bls12_381::{EdwardsProjective, Fr};
use ark_ff::{AdditiveGroup, BigInteger, PrimeField};

use ironfish_zkp::gadgets::{
    asset_info_preimage, expose_randomized_public_key, expose_value_commitment, prover_circuit,
    registered_inputs, shape_circuit, slice_into_boolean_vec_le, wire_witness, witness_point,
    ValueCommitment,
};

fn coord_bytes(p: EdwardsProjective) -> (Vec<u8>, Vec<u8>) {
    let a = p.into_affine();
    (
        a.x.into_bigint().to_bytes_le(),
        a.y.into_bigint().to_bytes_le(),
    )
}

fn value_generator() -> EdwardsProjective {
    EdwardsProjective::generator()
}

fn randomness_generator() -> EdwardsProjective {
    EdwardsProjective::generator().double()
}

fn asset_generator() -> EdwardsProjective {
    EdwardsProjective::generator().double().double()
}

fn decode_wires(wires: &[ironfish_zkp::gadgets::BitWire]) -> Vec<u8> {
    assert!(wires.len() % 8 == 0);
    let mut out = Vec::new();
    for chunk in wires.chunks(8) {
        let mut b: u8 = 0;
        for (i, w) in chunk.iter().enumerate() {
            if wire_witness(w).expect("witness present") {
                b |= 1 << i;
            }
        }
        out.push(b);
    }
    out
}

#[test]
fn slice_encodes_bytes_lsb_first_and_reconstructs() {
    let mut h = prover_circuit();
    let bytes: Vec<u8> = vec![0xa5, 0x01, 0xfe];
    let wires = slice_into_boolean_vec_le(&mut h, Some(&bytes), 3).expect("encoding succeeds");
    assert_eq!(wires.len(), 24);
    // Least-significant bit of the first byte comes first.
    assert_eq!(wire_witness(&wires[0]), Some(true));
    assert_eq!(wire_witness(&wires[1]), Some(false));
    assert_eq!(decode_wires(&wires), bytes);
}

#[test]
fn slice_shape_pass_allocates_unset_wires() {
    let mut h = shape_circuit();
    let wires = slice_into_boolean_vec_le(&mut h, None, 5).expect("shape pass succeeds");
    assert_eq!(wires.len(), 40);
    for w in &wires {
        assert_eq!(wire_witness(w), None);
    }
}

#[test]
fn slice_shape_pass_ignores_supplied_witness() {
    let mut h = shape_circuit();
    let bytes: Vec<u8> = vec![0xff; 4];
    let wires = slice_into_boolean_vec_le(&mut h, Some(&bytes), 4).expect("shape pass succeeds");
    assert_eq!(wires.len(), 32);
    for w in &wires {
        assert_eq!(wire_witness(w), None);
    }
}

#[test]
fn slice_proving_pass_without_witness_fails() {
    let mut h = prover_circuit();
    assert!(slice_into_boolean_vec_le(&mut h, None, 2).is_err());
}

#[test]
fn preimage_has_constant_length_and_zero_tail() {
    let mut h = prover_circuit();
    let pk = witness_point(&mut h, Some(0)).expect("identity key");
    let name: Vec<u8> = vec![0; 32];
    let metadata: Vec<u8> = vec![0; 76];
    let bits = asset_info_preimage(&mut h, &name, &metadata, &pk, &0).expect("preimage");
    assert_eq!(bits.len(), 1382);
    // The identity key's representation: 255 zero x-bits, then y = 1.
    for w in bits.iter().take(255) {
        assert_eq!(wire_witness(w), Some(false));
    }
    assert_eq!(wire_witness(&bits[255]), Some(true));
    // 872 zero bits follow the 510 public-key bits.
    assert_eq!(bits.iter().skip(510).count(), 872);
    for w in bits.iter().skip(510) {
        assert_eq!(wire_witness(w), Some(false));
    }
    // Reproducible across an independently built circuit.
    let mut h2 = prover_circuit();
    let pk2 = witness_point(&mut h2, Some(0)).expect("identity key");
    let bits2 = asset_info_preimage(&mut h2, &name, &metadata, &pk2, &0).expect("preimage");
    let read = |v: &Vec<ironfish_zkp::gadgets::BitWire>| -> Vec<Option<bool>> {
        v.iter().map(wire_witness).collect()
    };
    assert_eq!(read(&bits), read(&bits2));
}

#[test]
fn preimage_shape_pass_has_same_length() {
    let mut h = shape_circuit();
    let pk = witness_point(&mut h, None).expect("unset key");
    let name: Vec<u8> = vec![7; 32];
    let metadata: Vec<u8> = vec![9; 76];
    let bits = asset_info_preimage(&mut h, &name, &metadata, &pk, &1).expect("preimage");
    assert_eq!(bits.len(), 1382);
}

#[test]
fn value_commitment_registers_pedersen_point() {
    let mut h = prover_circuit();
    let mut randomness = vec![0u8; 32];
    randomness[0] = 7;
    let vc = ValueCommitment {
        value: 5,
        randomness,
    };
    let bits = expose_value_commitment(&mut h, Some(&vc)).expect("commitment");
    assert_eq!(bits.len(), 64);
    assert_eq!(decode_wires(&bits), 5u64.to_le_bytes().to_vec());

    let expected = value_generator() * Fr::from(5u64) + randomness_generator() * Fr::from(7u64);
    let (x, y) = coord_bytes(expected);
    let inst = registered_inputs(&h).expect("instance");
    assert_eq!(inst.len(), 3);
    assert_eq!(inst[1], x);
    assert_eq!(inst[2], y);
}

#[test]
fn value_commitment_of_zero_is_identity() {
    let mut h = prover_circuit();
    let vc = ValueCommitment {
        value: 0,
        randomness: vec![0u8; 32],
    };
    expose_value_commitment(&mut h, Some(&vc)).expect("commitment");
    let (x, y) = coord_bytes(EdwardsProjective::ZERO);
    let inst = registered_inputs(&h).expect("instance");
    assert_eq!(inst.len(), 3);
    assert_eq!(inst[1], x);
    assert_eq!(inst[2], y);
}

#[test]
fn value_commitment_is_deterministic_across_circuits() {
    let build = || {
        let mut h = prover_circuit();
        let vc = ValueCommitment {
            value: 9,
            randomness: vec![3u8; 32],
        };
        expose_value_commitment(&mut h, Some(&vc)).expect("commitment");
        registered_inputs(&h).expect("instance")
    };
    assert_eq!(build(), build());
}

#[test]
fn value_commitment_largest_amount_decodes() {
    let mut h = prover_circuit();
    let vc = ValueCommitment {
        value: u64::MAX,
        randomness: vec![0u8; 32],
    };
    let bits = expose_value_commitment(&mut h, Some(&vc)).expect("commitment");
    assert_eq!(decode_wires(&bits), u64::MAX.to_le_bytes().to_vec());
}

#[test]
fn value_commitment_shape_pass_registers_shape_only() {
    let mut h = shape_circuit();
    let bits = expose_value_commitment(&mut h, None).expect("shape pass succeeds");
    assert_eq!(bits.len(), 64);
    for w in &bits {
        assert_eq!(wire_witness(w), None);
    }
    // No assignment exists on the shape-only pass.
    assert!(registered_inputs(&h).is_err());
}

#[test]
fn randomized_public_key_adds_offset() {
    let mut h = prover_circuit();
    let pk = witness_point(&mut h, Some(9)).expect("public key");
    let randomness = vec![2u8; 32];
    expose_randomized_public_key(&mut h, Some(&randomness), &pk).expect("randomization");

    let k = Fr::from_le_bytes_mod_order(&randomness);
    let expected = EdwardsProjective::generator() * Fr::from(9u64) + asset_generator() * k;
    let (x, y) = coord_bytes(expected);
    let inst = registered_inputs(&h).expect("instance");
    assert_eq!(inst.len(), 3);
    assert_eq!(inst[1], x);
    assert_eq!(inst[2], y);
}

#[test]
fn randomized_public_key_shape_pass_succeeds() {
    let mut h = shape_circuit();
    let pk = witness_point(&mut h, None).expect("unset key");
    expose_randomized_public_key(&mut h, None, &pk).expect("shape pass succeeds");
    assert!(registered_inputs(&h).is_err());
}
