# poseidon_bn254

Poseidon hashing over the BN254 scalar field (width 3, rate 2, x^5 S-box,
8 full and 57 partial rounds), verified with Verus.

- `src/field.rs` — `Fr`, a canonical field element (four little-endian
  limbs below the modulus); arithmetic goes through `halo2curves`.
- `src/constants.rs` — round constants and the MDS matrix.
- `src/permutation.rs` — the permutation, with its rounds, stated over
  integers modulo the field modulus.
- `src/hash.rs` — `hash_with_domain`, `hash_msg` and `hash_code`, their
  specifications, and the laws relating them.
- `src/hint.rs` — the decisions behind installing the hash-result hook.
- `app/` — entry points on `halo2curves::bn256::Fr` and the hook itself
  (process-wide state behind an atomic).
