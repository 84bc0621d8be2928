use ark_bn254::Fr as ArkFr;
use ark_ff::{BigInteger, Field, PrimeField, Zero};
use light_poseidon::parameters::bn254_x5::get_poseidon_parameters;
use light_poseidon::{Poseidon, PoseidonHasher};
use poseidon_bn254::{hash_code, hash_msg, hash_with_domain, permute, Fr, POSEIDON_HASH_BYTES_IN_FIELD};

const HASHABLE_DOMAIN_SPEC: u128 = 1 << 64;

fn to_ark(f: &Fr) -> ArkFr {
    ArkFr::from_le_bytes_mod_order(&f.to_repr())
}

fn from_ark(a: &ArkFr) -> Fr {
    let v = a.into_bigint().to_bytes_le();
    let mut b = [0u8; 32];
    b.copy_from_slice(&v);
    Fr::from_bytes(&b).unwrap()
}

/// An independent Poseidon permutation over arkworks field arithmetic, with
/// the parameters that light-poseidon ships.
fn reference_permute(state: &mut [ArkFr; 3]) {
    let params = get_poseidon_parameters::<ArkFr>(3).unwrap();
    let half = params.full_rounds / 2;
    let rounds = params.full_rounds + params.partial_rounds;
    for r in 0..rounds {
        for i in 0..3 {
            state[i] += params.ark[r * 3 + i];
        }
        if r < half || r >= half + params.partial_rounds {
            for i in 0..3 {
                state[i] = state[i].pow([5u64]);
            }
        } else {
            state[0] = state[0].pow([5u64]);
        }
        let old = *state;
        for i in 0..3 {
            let mut acc = ArkFr::zero();
            for j in 0..3 {
                acc += old[j] * params.mds[i][j];
            }
            state[i] = acc;
        }
    }
}

/// Reference hash of a pair under a domain, by light-poseidon.
fn reference_hash_with_domain(inp: [ArkFr; 2], domain: ArkFr) -> ArkFr {
    let mut p = Poseidon::<ArkFr>::with_domain_tag_circom(2, domain).unwrap();
    p.hash(&inp).unwrap()
}

/// Reference sponge over a message, on top of the reference permutation.
fn reference_hash_msg(msg: &[ArkFr], cap: Option<u128>) -> ArkFr {
    let cap = match cap {
        Some(c) => ArkFr::from(c),
        None => ArkFr::from(msg.len() as u128 * HASHABLE_DOMAIN_SPEC),
    };
    let mut state = [cap, ArkFr::zero(), ArkFr::zero()];
    if !msg.is_empty() {
        state[1] = msg[0];
    }
    if msg.len() > 1 {
        state[2] = msg[1];
    }
    reference_permute(&mut state);
    let mut i = 2;
    while i < msg.len() {
        state[1] += msg[i];
        if i + 1 < msg.len() {
            state[2] += msg[i + 1];
        }
        reference_permute(&mut state);
        i += 2;
    }
    state[0]
}

fn fr_from_hex(hex: &str) -> Fr {
    let mut be = [0u8; 32];
    for i in 0..32 {
        be[i] = u8::from_str_radix(&hex[2 * i..2 * i + 2], 16).unwrap();
    }
    be.reverse();
    Fr::from_bytes(&be).unwrap()
}

fn be_bytes_from_hex(hex: &str) -> [u8; 32] {
    let mut be = [0u8; 32];
    for i in 0..32 {
        be[i] = u8::from_str_radix(&hex[2 * i..2 * i + 2], 16).unwrap();
    }
    be
}

fn hash_code_poseidon(code: &[u8]) -> [u8; 32] {
    let bytes_in_field = POSEIDON_HASH_BYTES_IN_FIELD;
    let mut msgs: Vec<ArkFr> = Vec::new();
    for i in 0..(code.len() / bytes_in_field) {
        let start = i * bytes_in_field;
        // big-endian 31 bytes read as an integer
        msgs.push(ArkFr::from_be_bytes_mod_order(&code[start..start + bytes_in_field]));
    }
    if code.len() % bytes_in_field != 0 {
        let last_code = &code[code.len() - code.len() % bytes_in_field..];
        let mut last_buf = vec![0u8; bytes_in_field];
        last_buf.as_mut_slice()[..last_code.len()].copy_from_slice(last_code);
        msgs.push(ArkFr::from_be_bytes_mod_order(&last_buf));
    }
    let h = if msgs.is_empty() {
        reference_hash_with_domain([ArkFr::zero(), ArkFr::zero()], ArkFr::zero())
    } else {
        reference_hash_msg(&msgs, Some(code.len() as u128 * HASHABLE_DOMAIN_SPEC))
    };
    let mut buf = [0u8; 32];
    buf.copy_from_slice(&h.into_bigint().to_bytes_be());
    buf
}

#[test]
fn test_empty_hash() {
    let inp = [Fr::zero(), Fr::zero()];
    let domain = Fr::zero();
    let result = hash_with_domain(&inp, domain);
    let expected = from_ark(&reference_hash_with_domain([to_ark(&inp[0]), to_ark(&inp[1])], to_ark(&domain)));
    assert_eq!(result, expected);

    let result = hash_msg(&[], Some(0));
    assert_eq!(result, expected);

    let result = hash_msg(&[], None);
    assert_eq!(result, expected);
}

#[test]
fn test_hash_with_domain() {
    let inp = [Fr::from_u64(1), Fr::from_u64(2)];
    let domain = Fr::from_u64(3);
    let result = hash_with_domain(&inp, domain);
    let expected = from_ark(&reference_hash_with_domain([to_ark(&inp[0]), to_ark(&inp[1])], to_ark(&domain)));
    assert_eq!(result, expected);
}

#[test]
fn test_hash_msg() {
    let msgs: Vec<Vec<Fr>> = vec![
        (0..1u64).map(Fr::from_u64).collect(),
        (0..10u64).map(Fr::from_u64).collect(),
        (0..11u64).map(Fr::from_u64).collect(),
    ];
    let cap = [None, Some(1u128), Some(10), Some(11), Some(100)];
    for msg in msgs.iter() {
        for cap in cap.iter() {
            let result = hash_msg(msg, *cap);
            let ark_msg: Vec<ArkFr> = msg.iter().map(to_ark).collect();
            let expected = from_ark(&reference_hash_msg(&ark_msg, *cap));
            assert_eq!(result, expected);
        }
    }
}

#[test]
fn test_hash_code() {
    let codes: Vec<Vec<u8>> = vec![
        vec![],
        (0..1u32).map(|i| i as u8).collect(),
        (0..32u32).map(|i| i as u8).collect(),
        (0..33u32).map(|i| i as u8).collect(),
        (0..64u32).map(|i| i as u8).collect(),
        (0..65u32).map(|i| i as u8).collect(),
        (0..32 * 5u32).map(|i| i as u8).collect(),
        (0..32 * 5 + 16u32).map(|i| i as u8).collect(),
    ];
    for code in codes.iter() {
        let result = hash_code(code);
        let expected = hash_code_poseidon(code);
        assert_eq!(result, expected);
    }
}

#[test]
fn test_known_circom_vector() {
    // Poseidon(1, 2) with circom parameters.
    let result = hash_with_domain(&[Fr::from_u64(1), Fr::from_u64(2)], Fr::zero());
    let expected = fr_from_hex("115cc0f5e7d690413df64c6b9662e9cf2a3617f2743245519e19607a4417189a");
    assert_eq!(result, expected);
}

#[test]
fn test_empty_code_hash_bytes() {
    let expected = be_bytes_from_hex("2098f5fb9e239eab3ceac3f27b81e481dc3124d55ffed523a839ee8446b64864");
    assert_eq!(hash_code(&[]), expected);
    let h = hash_with_domain(&[Fr::zero(), Fr::zero()], Fr::zero());
    assert_eq!(h, fr_from_hex("2098f5fb9e239eab3ceac3f27b81e481dc3124d55ffed523a839ee8446b64864"));
}

#[test]
fn test_permute_matches_reference() {
    let mut state = [Fr::from_u64(7), Fr::from_u64(11), Fr::from_u128(1u128 << 100)];
    let mut reference = [to_ark(&state[0]), to_ark(&state[1]), to_ark(&state[2])];
    permute(&mut state);
    reference_permute(&mut reference);
    for i in 0..3 {
        assert_eq!(state[i], from_ark(&reference[i]));
    }
}

#[test]
fn test_short_message_is_pair_hash() {
    let a = Fr::from_u64(5);
    let b = Fr::from_u64(9);
    let d = Fr::from_u128(77);
    assert_eq!(hash_msg(&[a, b], Some(77)), hash_with_domain(&[a, b], d));
    assert_eq!(hash_msg(&[a], Some(77)), hash_with_domain(&[a, Fr::zero()], d));
}

#[test]
fn test_default_capacity_is_length_times_two_pow_64() {
    let msg: Vec<Fr> = (0..7u64).map(Fr::from_u64).collect();
    assert_eq!(hash_msg(&msg, None), hash_msg(&msg, Some(7u128 << 64)));
    assert_ne!(hash_msg(&msg, None), hash_msg(&msg, Some(7)));
}

#[test]
fn test_code_hash_is_message_hash() {
    let code: Vec<u8> = (0..70u32).map(|i| (i * 7) as u8).collect();
    let mut elements = Vec::new();
    for chunk in code.chunks(31) {
        let mut be = [0u8; 32];
        be[1..1 + chunk.len()].copy_from_slice(chunk);
        be.reverse();
        elements.push(Fr::from_bytes(&be).unwrap());
    }
    assert_eq!(elements.len(), 3);
    let h = hash_msg(&elements, Some(70u128 << 64));
    let mut be = h.to_repr();
    be.reverse();
    assert_eq!(hash_code(&code), be);
}

#[test]
fn test_hash_depends_on_every_element() {
    let msg: Vec<Fr> = (0..5u64).map(Fr::from_u64).collect();
    let mut other = msg.clone();
    other[4] = Fr::from_u64(100);
    assert_ne!(hash_msg(&msg, None), hash_msg(&other, None));
    assert_ne!(hash_code(&[1, 2, 3]), hash_code(&[1, 2, 4]));
}
