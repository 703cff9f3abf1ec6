use ecvrf::curve::{CurvePoint, ScalarValue};
use ecvrf::vrf::{random_nonce, verify_with_public_key, ECVRFProof, VrfError, ECVRF, PROOF_SIZE};
use rand::RngCore;
use tiny_keccak::{Hasher, Keccak};

fn keccak(data: &[u8]) -> [u8; 32] {
    let mut h = Keccak::v256();
    h.update(data);
    let mut out = [0u8; 32];
    h.finalize(&mut out);
    out
}

fn hex32(s: &str) -> [u8; 32] {
    let mut r = [0u8; 32];
    for i in 0..32 {
        r[i] = u8::from_str_radix(&s[2 * i..2 * i + 2], 16).unwrap();
    }
    r
}

const ORDER: &str = "FFFFFFFFFFFFFFFFFFFFFFFFFFFFFFFEBAAEDCE6AF48A03BBFD25E8CD0364141";
const ORDER_MINUS_ONE: &str = "FFFFFFFFFFFFFFFFFFFFFFFFFFFFFFFEBAAEDCE6AF48A03BBFD25E8CD0364140";

fn scalar(b: [u8; 32]) -> ScalarValue {
    ScalarValue::from_bytes(&b).unwrap()
}

fn small(v: u8) -> ScalarValue {
    let mut b = [0u8; 32];
    b[31] = v;
    scalar(b)
}

fn random_engine() -> ECVRF {
    let mut rng = rand::thread_rng();
    loop {
        let mut b = [0u8; 32];
        rng.fill_bytes(&mut b);
        if let Ok(e) = ECVRF::new(&b) {
            return e;
        }
    }
}

fn fixed_engine() -> ECVRF {
    ECVRF::new(&[1u8; 32]).unwrap()
}

#[test]
fn we_should_able_to_prove_and_verify() {
    let ecvrf = random_engine();
    let alpha = random_nonce().unwrap();
    let r1 = ecvrf.prove(&alpha).unwrap();
    let r2 = ecvrf.verify(&alpha, &r1);
    assert!(r2);
}

#[test]
fn round_trip_on_several_keys_and_inputs() {
    for _ in 0..4 {
        let e = random_engine();
        let alpha = random_nonce().unwrap();
        let p = e.prove(&alpha).unwrap();
        assert!(e.verify(&alpha, &p));
        assert!(verify_with_public_key(&e.public_key(), &alpha, &p));
    }
}

#[test]
fn concrete_vector_proves_and_verifies() {
    let e = fixed_engine();
    let alpha = scalar([2u8; 32]);
    let p = e.prove(&alpha).unwrap();
    assert!(e.verify(&alpha, &p));
    let bytes = p.to_bytes();
    assert_eq!(bytes.len(), PROOF_SIZE);
    assert_eq!(keccak(&bytes[0..64]), p.y);
}

#[test]
fn output_is_deterministic_and_proof_is_not() {
    let e = fixed_engine();
    let alpha = scalar([2u8; 32]);
    let p1 = e.prove(&alpha).unwrap();
    let p2 = e.prove(&alpha).unwrap();
    assert_eq!(p1.y, p2.y);
    assert_eq!(p1.gamma.x, p2.gamma.x);
    assert_eq!(p1.gamma.y, p2.gamma.y);
    assert!(p1.c.bytes != p2.c.bytes || p1.s.bytes != p2.s.bytes);
    assert!(e.verify(&alpha, &p1));
    assert!(e.verify(&alpha, &p2));
}

#[test]
fn prove_with_nonce_is_deterministic() {
    let e = fixed_engine();
    let alpha = scalar([2u8; 32]);
    let k = small(7);
    let p1 = e.prove_with_nonce(&alpha, &k).unwrap();
    let p2 = e.prove_with_nonce(&alpha, &k).unwrap();
    assert_eq!(p1.to_bytes(), p2.to_bytes());
    assert!(e.verify(&alpha, &p1));
}

#[test]
fn substituted_gamma_is_rejected() {
    let e = fixed_engine();
    let alpha = scalar([2u8; 32]);
    let p = e.prove(&alpha).unwrap();
    let other = ECVRF::new(&[3u8; 32]).unwrap().prove(&alpha).unwrap();
    let mut forged = p;
    forged.gamma = other.gamma;
    assert!(!e.verify(&alpha, &forged));
    forged.y = other.y;
    assert!(!e.verify(&alpha, &forged));
}

#[test]
fn flipped_bytes_are_rejected() {
    let e = fixed_engine();
    let alpha = scalar([2u8; 32]);
    let p = e.prove(&alpha).unwrap();
    for i in 0..32 {
        let mut q = p;
        q.gamma.x[i] ^= 1;
        assert!(!e.verify(&alpha, &q));
        let mut q = p;
        q.gamma.y[i] ^= 1;
        assert!(!e.verify(&alpha, &q));
        let mut q = p;
        q.c.bytes[i] ^= 1;
        assert!(!e.verify(&alpha, &q));
        let mut q = p;
        q.s.bytes[i] ^= 1;
        assert!(!e.verify(&alpha, &q));
        let mut q = p;
        q.y[i] ^= 1;
        assert!(!e.verify(&alpha, &q));
    }
}

#[test]
fn other_key_rejects() {
    let e1 = fixed_engine();
    let e2 = ECVRF::new(&[5u8; 32]).unwrap();
    let alpha = scalar([2u8; 32]);
    let p = e1.prove(&alpha).unwrap();
    assert!(!e2.verify(&alpha, &p));
    assert!(!verify_with_public_key(&e2.public_key(), &alpha, &p));
}

#[test]
fn other_input_rejects() {
    let e = fixed_engine();
    let p = e.prove(&scalar([2u8; 32])).unwrap();
    assert!(!e.verify(&scalar([4u8; 32]), &p));
}

#[test]
fn off_curve_gamma_is_rejected() {
    let e = fixed_engine();
    let alpha = scalar([2u8; 32]);
    let mut p = e.prove(&alpha).unwrap();
    p.gamma = CurvePoint { x: small(1).bytes, y: small(1).bytes, infinity: false };
    assert!(!e.verify(&alpha, &p));
    p.gamma = CurvePoint { x: [0u8; 32], y: [0u8; 32], infinity: true };
    assert!(!e.verify(&alpha, &p));
}

#[test]
fn off_curve_public_key_is_rejected() {
    let e = fixed_engine();
    let alpha = scalar([2u8; 32]);
    let p = e.prove(&alpha).unwrap();
    let bad = CurvePoint { x: small(1).bytes, y: small(2).bytes, infinity: false };
    assert!(!verify_with_public_key(&bad, &alpha, &p));
}

#[test]
fn unreduced_scalar_in_proof_is_rejected() {
    let e = fixed_engine();
    let alpha = scalar([2u8; 32]);
    let mut p = e.prove(&alpha).unwrap();
    p.s.bytes = [0xffu8; 32];
    assert!(!e.verify(&alpha, &p));
}

#[test]
fn new_rejects_zero_and_order() {
    assert_eq!(ECVRF::new(&[0u8; 32]).err(), Some(VrfError::InvalidScalarEncoding));
    assert_eq!(ECVRF::new(&hex32(ORDER)).err(), Some(VrfError::InvalidScalarEncoding));
    assert_eq!(ECVRF::new(&[0xffu8; 32]).err(), Some(VrfError::InvalidScalarEncoding));
    assert!(ECVRF::new(&hex32(ORDER_MINUS_ONE)).is_ok());
}

#[test]
fn public_key_of_one_is_generator() {
    let mut b = [0u8; 32];
    b[31] = 1;
    let e = ECVRF::new(&b).unwrap();
    let g = CurvePoint::generator();
    assert_eq!(e.public_key().x, g.x);
    assert_eq!(e.public_key().y, g.y);
    assert!(g.is_valid());
}

#[test]
fn hash_to_curve_of_two_is_double_generator() {
    let e = fixed_engine();
    let two_g = e.hash_to_curve(&small(2), None);
    assert_eq!(two_g.x, hex32("C6047F9441ED7D6D3045406E95C07CD85C778E4B8CEF3CA7ABAC09B95C709EE5"));
    assert_eq!(two_g.y, hex32("1AE168FEA63DC339A3C58419466CEAEEF7F632653266D0E1236431A950CFE52A"));
    let g = CurvePoint::generator();
    let sum = e.hash_to_curve(&small(1), Some(&g));
    assert_eq!(sum.x, two_g.x);
    assert_eq!(sum.y, two_g.y);
    assert!(sum.is_valid());
}

#[test]
fn hash_to_curve_to_infinity_fails_prove() {
    let e = fixed_engine();
    // alpha = n - sk makes alpha * G + pk the point at infinity.
    let sk = scalar([1u8; 32]);
    let alpha = small(0).sub_mul(&sk, &small(1));
    let h = e.hash_to_curve(&alpha, Some(&e.public_key()));
    assert!(h.infinity);
    assert_eq!(e.prove_with_nonce(&alpha, &small(3)).err(), Some(VrfError::InvalidPoint));
    assert_eq!(e.prove(&alpha).err(), Some(VrfError::InvalidPoint));
}

#[test]
fn hash_points_is_reduced_keccak_of_coordinates() {
    let e = fixed_engine();
    let g = CurvePoint::generator();
    let h = e.hash_to_curve(&small(2), None);
    let c = e.hash_points(&g, &h, &g, &h, &g, &h);
    let mut data = Vec::new();
    for p in [&g, &h, &g, &h, &g, &h] {
        data.extend_from_slice(&p.x);
        data.extend_from_slice(&p.y);
    }
    let digest = keccak(&data);
    assert_eq!(c.bytes, ScalarValue::from_bytes_reduced(&digest).0.bytes);
    assert_ne!(c.bytes, g.x);
}

#[test]
fn output_is_keccak_of_gamma() {
    let g = CurvePoint::generator();
    let out = ecvrf::vrf::keccak256_point(&g);
    let mut data = g.x.to_vec();
    data.extend_from_slice(&g.y);
    assert_eq!(out, keccak(&data));
    assert_ne!(out, g.x);
}

#[test]
fn scalar_reduction_and_overflow() {
    let (r, overflow) = ScalarValue::from_bytes_reduced(&hex32(ORDER));
    assert!(overflow);
    assert_eq!(r.bytes, [0u8; 32]);
    let (r, overflow) = ScalarValue::from_bytes_reduced(&[0xffu8; 32]);
    assert!(overflow);
    assert_eq!(r.bytes, hex32("000000000000000000000000000000014551231950B75FC4402DA1732FC9BEBE"));
    let (r, overflow) = ScalarValue::from_bytes_reduced(&[2u8; 32]);
    assert!(!overflow);
    assert_eq!(r.bytes, [2u8; 32]);
    assert!(ScalarValue::from_bytes(&hex32(ORDER)).is_none());
}

#[test]
fn sub_mul_values() {
    assert_eq!(small(10).sub_mul(&small(3), &small(2)).bytes, small(4).bytes);
    assert_eq!(small(1).sub_mul(&small(1), &small(2)).bytes, hex32(ORDER_MINUS_ONE));
    assert_eq!(small(5).sub_mul(&small(0), &small(9)).bytes, small(5).bytes);
}

#[test]
fn clear_zeroes_scalar() {
    let mut s = scalar([7u8; 32]);
    assert!(!s.is_zero());
    s.clear();
    assert!(s.is_zero());
    assert_eq!(s.bytes, [0u8; 32]);
    assert!(ScalarValue::zero().is_zero());
}

#[test]
fn random_nonce_is_in_range() {
    for _ in 0..8 {
        let k = random_nonce().unwrap();
        assert!(!k.is_zero());
        assert!(ScalarValue::from_bytes(&k.bytes).is_some());
    }
}

#[test]
fn proof_bytes_round_trip() {
    let e = fixed_engine();
    let p = e.prove(&scalar([2u8; 32])).unwrap();
    let bytes = p.to_bytes();
    assert_eq!(&bytes[0..32], &p.gamma.x);
    assert_eq!(&bytes[64..96], &p.c.bytes);
    assert_eq!(&bytes[128..160], &p.y);
    assert_eq!(&bytes[192..224], &p.public_key.y);
    let q = ECVRFProof::from_bytes(&bytes).unwrap();
    assert_eq!(q.to_bytes(), bytes);
    assert!(e.verify(&scalar([2u8; 32]), &q));
}

#[test]
fn proof_decode_errors() {
    let e = fixed_engine();
    let bytes = e.prove(&scalar([2u8; 32])).unwrap().to_bytes();
    assert_eq!(ECVRFProof::from_bytes(&bytes[0..223]).err(), Some(VrfError::DecodeError));
    assert_eq!(ECVRFProof::from_bytes(&[]).err(), Some(VrfError::DecodeError));
    let mut bad = bytes.clone();
    for b in &mut bad[96..128] {
        *b = 0xff;
    }
    assert_eq!(ECVRFProof::from_bytes(&bad).err(), Some(VrfError::InvalidScalarEncoding));
    let mut bad = bytes.clone();
    bad[10] ^= 1;
    assert_eq!(ECVRFProof::from_bytes(&bad).err(), Some(VrfError::InvalidPoint));
    let mut bad = bytes.clone();
    for b in &mut bad[160..224] {
        *b = 0;
    }
    assert_eq!(ECVRFProof::from_bytes(&bad).err(), Some(VrfError::InvalidPoint));
}

#[test]
fn point_encoding_round_trip_and_errors() {
    let g = CurvePoint::generator();
    let bytes = g.to_encoding();
    assert_eq!(bytes.len(), 64);
    let p = CurvePoint::from_encoding(&bytes).unwrap();
    assert_eq!(p.x, g.x);
    assert_eq!(p.y, g.y);
    assert!(!p.infinity);
    assert_eq!(CurvePoint::from_encoding(&bytes[0..63]).err(), Some(VrfError::DecodeError));
    let mut bad = bytes.clone();
    bad[63] ^= 1;
    assert_eq!(CurvePoint::from_encoding(&bad).err(), Some(VrfError::InvalidPoint));
    let above_prime = [0xffu8; 64];
    assert_eq!(CurvePoint::from_encoding(&above_prime).err(), Some(VrfError::InvalidPoint));
}

#[test]
fn nonce_from_bytes_range() {
    assert!(ScalarValue::nonce_from_bytes(&[0u8; 32]).is_none());
    assert!(ScalarValue::nonce_from_bytes(&hex32(ORDER)).is_none());
    assert!(ScalarValue::nonce_from_bytes(&[0xffu8; 32]).is_none());
    assert_eq!(ScalarValue::nonce_from_bytes(&small(1).bytes).unwrap().bytes, small(1).bytes);
    assert_eq!(ScalarValue::nonce_from_bytes(&hex32(ORDER_MINUS_ONE)).unwrap().bytes, hex32(ORDER_MINUS_ONE));
}

#[test]
fn proved_gamma_is_a_valid_point() {
    let e = fixed_engine();
    let p = e.prove(&scalar([2u8; 32])).unwrap();
    assert!(p.gamma.is_valid());
    assert!(p.public_key.is_valid());
}
