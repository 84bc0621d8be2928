use poseidon_bn254::field::Fr;
use poseidon_bn254::permutation::{
    apply_mds, fill_state, full_round, mul_add_assign, partial_round, sbox, sbox_inplace, set_state,
};
use poseidon_bn254::hash::init_state_with_cap_and_msg;

/// The modulus, little-endian limbs.
const MODULUS_LIMBS: [u64; 4] = [
    0x43e1f593f0000001,
    0x2833e84879b97091,
    0xb85045b68181585d,
    0x30644e72e131a029,
];

fn modulus_bytes() -> [u8; 32] {
    let mut b = [0u8; 32];
    for i in 0..4 {
        b[8 * i..8 * i + 8].copy_from_slice(&MODULUS_LIMBS[i].to_le_bytes());
    }
    b
}

fn minus_one() -> Fr {
    let mut l = MODULUS_LIMBS;
    l[0] -= 1;
    Fr::from_raw(l)
}

#[test]
fn test_add_wraps_at_modulus() {
    let r = minus_one().add(&Fr::from_u64(3));
    assert_eq!(r, Fr::from_u64(2));
    let mut a = Fr::from_u64(40);
    a.add_assign(&Fr::from_u64(2));
    assert_eq!(a, Fr::from_u64(42));
}

#[test]
fn test_mul_and_square() {
    assert_eq!(Fr::from_u64(6).mul(&Fr::from_u64(7)), Fr::from_u64(42));
    // (-1) * (-1) = 1
    assert_eq!(minus_one().mul(&minus_one()), Fr::from_u64(1));
    assert_eq!(minus_one().square(), Fr::from_u64(1));
    let mut a = Fr::from_u64(1 << 40);
    a.mul_assign(&Fr::from_u64(1 << 40));
    assert_eq!(a, Fr::from_u128(1u128 << 80));
    assert_eq!(Fr::from_u64(12345).square(), Fr::from_u64(12345 * 12345));
}

#[test]
fn test_from_raw_reduces() {
    assert_eq!(Fr::from_raw(MODULUS_LIMBS), Fr::zero());
    let mut l = MODULUS_LIMBS;
    l[0] += 5;
    assert_eq!(Fr::from_raw(l), Fr::from_u64(5));
    assert_eq!(Fr::from_raw([0, 3, 0, 0]), Fr::from_u128(3u128 << 64));
}

#[test]
fn test_from_bytes_rejects_non_canonical() {
    assert!(Fr::from_bytes(&modulus_bytes()).is_none());
    assert!(Fr::from_bytes(&[0xffu8; 32]).is_none());
    let mut b = modulus_bytes();
    b[0] -= 1;
    assert_eq!(Fr::from_bytes(&b), Some(minus_one()));
}

#[test]
fn test_repr_round_trip() {
    let f = Fr::from_u128(0x0123_4567_89ab_cdef_0011_2233_4455_6677);
    let r = f.to_repr();
    assert_eq!(r[0], 0x77);
    assert_eq!(r[15], 0x01);
    assert_eq!(r[16], 0);
    assert_eq!(Fr::from_bytes(&r), Some(f));
}

#[test]
fn test_is_zero() {
    assert!(Fr::zero().is_zero_vartime());
    assert!(!Fr::from_u64(1).is_zero_vartime());
    assert!(Fr::from_raw(MODULUS_LIMBS).is_zero_vartime());
}

#[test]
fn test_sbox_is_fifth_power() {
    assert_eq!(sbox(Fr::from_u64(2)), Fr::from_u64(32));
    assert_eq!(sbox(Fr::from_u64(10)), Fr::from_u64(100000));
    assert_eq!(sbox(minus_one()), minus_one());
    let mut v = Fr::from_u64(3);
    sbox_inplace(&mut v);
    assert_eq!(v, Fr::from_u64(243));
}

#[test]
fn test_mul_add_assign() {
    let mut d = Fr::from_u64(10);
    mul_add_assign(&mut d, &Fr::from_u64(4), &[5, 0, 0, 0]);
    assert_eq!(d, Fr::from_u64(30));
}

#[test]
fn test_state_helpers() {
    let mut s = [Fr::zero(), Fr::zero(), Fr::zero()];
    fill_state(&mut s, &Fr::from_u64(9));
    assert_eq!(s, [Fr::from_u64(9); 3]);
    let t = [Fr::from_u64(1), Fr::from_u64(2), Fr::from_u64(3)];
    set_state(&mut s, &t);
    assert_eq!(s, t);
    let cap = Fr::from_u64(8);
    assert_eq!(init_state_with_cap_and_msg(&cap, &[]), [cap, Fr::zero(), Fr::zero()]);
    assert_eq!(init_state_with_cap_and_msg(&cap, &[t[0]]), [cap, t[0], Fr::zero()]);
    assert_eq!(init_state_with_cap_and_msg(&cap, &t), [cap, t[0], t[1]]);
}

#[test]
fn test_rounds_change_state() {
    let zero = [Fr::zero(), Fr::zero(), Fr::zero()];
    let mut a = zero;
    apply_mds(&mut a);
    assert_eq!(a, zero);
    let mut b = zero;
    full_round(&mut b, &[[1, 0, 0, 0], [0, 0, 0, 0], [0, 0, 0, 0]]);
    let mut c = zero;
    partial_round(&mut c, &[[1, 0, 0, 0], [0, 0, 0, 0], [0, 0, 0, 0]]);
    // With only the first element set to 1, the S-box leaves it 1 in both
    // kinds of round, so the two agree.
    assert_eq!(b, c);
    assert_ne!(b, zero);
}

#[test]
fn test_sbox_multiplicative_and_odd() {
    let a = Fr::from_u128(0xdead_beef_0123_4567_89ab);
    let b = minus_one().mul(&Fr::from_u64(987654321));
    assert_eq!(sbox(a.mul(&b)), sbox(a).mul(&sbox(b)));
    assert_eq!(sbox(Fr::zero()), Fr::zero());
    assert_eq!(sbox(Fr::from_u64(1)), Fr::from_u64(1));
    // -a is (-1) * a, and (-a)^5 = -(a^5)
    let neg_a = minus_one().mul(&a);
    assert_eq!(sbox(neg_a), minus_one().mul(&sbox(a)));
}

#[test]
fn test_distinct_states_stay_distinct() {
    let s = [Fr::from_u64(1), Fr::from_u64(2), Fr::from_u64(3)];
    let t = [Fr::from_u64(1), Fr::from_u64(2), Fr::from_u64(4)];
    let (mut ms, mut mt) = (s, t);
    apply_mds(&mut ms);
    apply_mds(&mut mt);
    assert_ne!(ms, mt);
    let (mut ps, mut pt) = (s, t);
    poseidon_bn254::permute(&mut ps);
    poseidon_bn254::permute(&mut pt);
    assert_ne!(ps, pt);
}
