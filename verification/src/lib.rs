//! Poseidon hash over the scalar field of BN254 (width 3, rate 2, x^5
//! S-box), with hashing of a pair under a domain, of a message of field
//! elements under a capacity, and of bytecode.

pub mod constants;
pub mod field;
pub mod hash;
pub mod hint;
pub mod permutation;

pub use constants::{FULL_ROUNDS, PARTIAL_ROUNDS, POSEIDON_HASH_BYTES_IN_FIELD, RATE, T};
pub use field::Fr;
pub use hash::{hash_code, hash_msg, hash_with_domain};
pub use hint::SetZkvmHintHookError;
pub use permutation::permute;
