//! Hashing with the Poseidon sponge: a pair of elements under a domain, a
//! message of elements under a capacity, and bytecode.

use crate::constants::{POSEIDON_HASH_BYTES_IN_FIELD, RATE};
use crate::field::{be_value, lemma_le_value_bound, lemma_le_value_split, le_value, modulus, pow256, Fr};
use crate::permutation::{permutation_spec, permute, state_view, values};
use vstd::prelude::*;

verus! {

/// `2^64`: the capacity that a message of `n` elements gets by default is
/// `n * 2^64`.
pub open spec fn two_pow_64() -> nat {
    0x1_0000_0000_0000_0000nat
}

/// The hash of the pair `(a, b)` under `domain`: the first element of the
/// permutation of `[domain, a, b]`.
pub open spec fn hash_with_domain_spec(a: nat, b: nat, domain: nat) -> nat {
    permutation_spec(seq![domain, a, b])[0]
}

/// The first state of the sponge: the capacity and the first two message
/// elements (zero where the message is shorter).
pub open spec fn init_state_spec(cap: nat, msg: Seq<nat>) -> Seq<nat> {
    seq![
        cap,
        if msg.len() > 0 { msg[0] } else { 0 },
        if msg.len() > 1 { msg[1] } else { 0 },
    ]
}

/// The sponge state after the first permutation and `k` more chunks of
/// `RATE` elements (the last chunk may hold one element only).
pub open spec fn absorb_spec(cap: nat, msg: Seq<nat>, k: nat) -> Seq<nat>
    decreases k,
{
    if k == 0 {
        permutation_spec(init_state_spec(cap, msg))
    } else {
        let s = absorb_spec(cap, msg, (k - 1) as nat);
        let i = 2 * k;
        let s1 = (s[1] + msg[i as int]) % modulus();
        let s2 = if i + 1 < msg.len() {
            (s[2] + msg[(i + 1) as int]) % modulus()
        } else {
            s[2]
        };
        permutation_spec(seq![s[0], s1, s2])
    }
}

/// The number of chunks absorbed after the first permutation.
pub open spec fn extra_chunks(len: nat) -> nat {
    if len <= 2 {
        0
    } else {
        ((len - 1) / 2) as nat
    }
}

/// The hash of a message under a capacity.
pub open spec fn hash_msg_spec(msg: Seq<nat>, cap: nat) -> nat {
    absorb_spec(cap, msg, extra_chunks(msg.len()))[0]
}

/// The capacity that `hash_msg` uses: the given one, or by default the
/// message length times `2^64`.
pub open spec fn msg_capacity(len: nat, cap: Option<u128>) -> nat {
    match cap {
        Some(c) => c as nat,
        None => len * two_pow_64(),
    }
}

/// Chunk `j` of bytecode: bytes `31 j ..` up to 31 of them.
pub open spec fn code_chunk(code: Seq<u8>, j: int) -> Seq<u8> {
    let start = POSEIDON_HASH_BYTES_IN_FIELD * j;
    let end = if start + POSEIDON_HASH_BYTES_IN_FIELD <= code.len() {
        start + POSEIDON_HASH_BYTES_IN_FIELD
    } else {
        code.len() as int
    };
    code.subrange(start, end)
}

/// The field element of chunk `j`: the chunk, padded with zero bytes to 31
/// bytes, read as a big-endian integer.
pub open spec fn code_element(code: Seq<u8>, j: int) -> nat {
    let c = code_chunk(code, j);
    be_value(c + Seq::new((POSEIDON_HASH_BYTES_IN_FIELD - c.len()) as nat, |k: int| 0u8))
}

/// The number of chunks of bytecode.
pub open spec fn code_chunk_count(len: nat) -> nat {
    ((len + POSEIDON_HASH_BYTES_IN_FIELD - 1) / (POSEIDON_HASH_BYTES_IN_FIELD as int)) as nat
}

/// The field elements of bytecode, one per chunk.
pub open spec fn code_elements(code: Seq<u8>) -> Seq<nat> {
    Seq::new(code_chunk_count(code.len()), |j: int| code_element(code, j))
}

/// The hash of bytecode, as an integer: the hash of the empty message for
/// empty code, else the hash of its elements under the capacity
/// `len * 2^64`.
pub open spec fn hash_code_spec(code: Seq<u8>) -> nat {
    if code.len() == 0 {
        hash_with_domain_spec(0, 0, 0)
    } else {
        hash_msg_spec(code_elements(code), code.len() * two_pow_64())
    }
}

/// The first sponge state: `[cap, msg[0], msg[1]]`, with zero for missing
/// message elements.
pub fn init_state_with_cap_and_msg(cap: &Fr, msg: &[Fr]) -> (r: [Fr; 3])
    ensures
        state_view(r) == init_state_spec(cap@, values(msg@)),
{
    if msg.len() == 0 {
        [*cap, Fr::zero(), Fr::zero()]
    } else if msg.len() == 1 {
        [*cap, msg[0], Fr::zero()]
    } else {
        [*cap, msg[0], msg[1]]
    }
}

/// Hashes two elements under a domain.
pub fn hash_with_domain(inp: &[Fr; 2], domain: Fr) -> (r: Fr)
    ensures
        r@ == hash_with_domain_spec(inp[0]@, inp[1]@, domain@),
{
    let mut state = init_state_with_cap_and_msg(&domain, inp.as_slice());
    permute(&mut state);
    state[0]
}

/// Runs the sponge over a message with the given capacity element.
fn sponge(msg: &[Fr], cap: &Fr) -> (r: Fr)
    ensures
        r@ == hash_msg_spec(values(msg@), cap@),
{
    let ghost m = values(msg@);
    let mut state = init_state_with_cap_and_msg(cap, msg);
    permute(&mut state);
    if msg.len() > RATE {
        let mut i: usize = RATE;
        while i < msg.len()
            invariant
                m == values(msg@),
                2 <= i <= msg.len(),
                i < msg.len() ==> i % 2 == 0,
                state_view(state) == absorb_spec(cap@, m, ((i + 1) / 2 - 1) as nat),
            decreases msg.len() - i,
        {
            let ghost k: nat = (i / 2) as nat;
            let mut s1: Fr = state[1];
            s1.add_assign(&msg[i]);
            state[1] = s1;
            if i + 1 < msg.len() {
                let mut s2: Fr = state[2];
                s2.add_assign(&msg[i + 1]);
                state[2] = s2;
                permute(&mut state);
                i = i + 2;
            } else {
                permute(&mut state);
                i = i + 1;
            }
            assert(state_view(state) == absorb_spec(cap@, m, k));
        }
    }
    state[0]
}

/// Hashes a message of field elements under a capacity: by default the
/// message length times `2^64`.
pub fn hash_msg(msg: &[Fr], cap: Option<u128>) -> (r: Fr)
    ensures
        r@ == hash_msg_spec(values(msg@), msg_capacity(msg@.len(), cap)),
{
    let cap_fr = match cap {
        Some(c) => Fr::from_u128(c),
        None => Fr::from_raw([0u64, msg.len() as u64, 0u64, 0u64]),
    };
    sponge(msg, &cap_fr)
}


/// A chunk of at most 31 bytes, padded with zero bytes to 31 and read as a
/// big-endian integer, as a field element.
fn chunk_element(code: &[u8], start: usize, end: usize) -> (f: Fr)
    requires
        start < end <= code.len(),
        end - start <= POSEIDON_HASH_BYTES_IN_FIELD,
    ensures
        f@ == be_value(
            code@.subrange(start as int, end as int) + Seq::new(
                (POSEIDON_HASH_BYTES_IN_FIELD - (end - start)) as nat,
                |k: int| 0u8,
            ),
        ),
{
    let ghost x = code@.subrange(start as int, end as int) + Seq::new(
        (POSEIDON_HASH_BYTES_IN_FIELD - (end - start)) as nat,
        |k: int| 0u8,
    );
    let len: usize = end - start;
    let mut be_bytes: [u8; 32] = [0u8; 32];
    for k in 0..len
        invariant
            len == end - start,
            len <= 31,
            end <= code.len(),
            be_bytes[0] == 0,
            forall|m: int| 1 <= m < 1 + k ==> #[trigger] be_bytes[m] == code@[start + m - 1],
            forall|m: int| 1 + k <= m < 32 ==> #[trigger] be_bytes[m] == 0,
    {
        be_bytes[1 + k] = code[start + k];
    }
    let mut le_bytes: [u8; 32] = [0u8; 32];
    for k in 0..32usize
        invariant
            forall|m: int| 0 <= m < k ==> #[trigger] le_bytes[m] == be_bytes[31 - m],
    {
        le_bytes[k] = be_bytes[31 - k];
    }
    proof {
        assert(be_bytes@ =~= seq![0u8] + x);
        let y = x.reverse();
        assert(le_bytes@ =~= y.push(0u8));
        lemma_le_value_split(y.push(0u8), 31);
        assert(y.push(0u8).subrange(0, 31) =~= y);
        assert(y.push(0u8).subrange(31, 32) =~= seq![0u8]);
        assert(le_value(seq![0u8]) == 0) by {
            assert(seq![0u8].drop_first() =~= Seq::<u8>::empty());
            reveal_with_fuel(le_value, 2);
        }
        lemma_le_value_bound(y);
        reveal_with_fuel(pow256, 32);
        assert(pow256(31) < modulus());
        assert(y.len() == 31);
        let z = y.push(0u8);
        assert(le_value(z) == le_value(z.subrange(0, 31)) + pow256(31) * le_value(z.subrange(31, 32)));
        assert(le_value(z.subrange(31, 32)) == 0);
        let w = le_value(z.subrange(31, 32));
        let q = pow256(31);
        assert(q * w == 0) by (nonlinear_arith)
            requires
                w == 0,
        ;
        assert(le_value(z) == le_value(y));
        assert(le_value(le_bytes@) == le_value(y));
        assert(le_value(le_bytes@) < modulus());
    }
    Fr::from_bytes(&le_bytes).unwrap()
}

/// The big-endian encoding of an element.
fn to_be_bytes(f: &Fr) -> (r: [u8; 32])
    ensures
        be_value(r@) == f@,
{
    let bytes = f.to_repr();
    let mut result: [u8; 32] = [0u8; 32];
    for k in 0..32usize
        invariant
            forall|m: int| 0 <= m < k ==> #[trigger] result[m] == bytes[31 - m],
    {
        result[k] = bytes[31 - k];
    }
    assert(result@.reverse() =~= bytes@);
    result
}

/// Hashes bytecode: the code is cut into chunks of 31 bytes, each chunk
/// becomes a field element, and the elements are hashed under the capacity
/// `len * 2^64`; the result is the hash's 32-byte big-endian encoding.
pub fn hash_code(code: &[u8]) -> (r: [u8; 32])
    ensures
        be_value(r@) == hash_code_spec(code@),
{
    if code.len() == 0 {
        let zero = Fr::zero();
        let h = hash_with_domain(&[zero, zero], zero);
        return to_be_bytes(&h);
    }
    let mut msg: Vec<Fr> = Vec::new();
    let mut start: usize = 0;
    while start < code.len()
        invariant
            start <= code.len(),
            msg.len() == (start + POSEIDON_HASH_BYTES_IN_FIELD - 1) / (POSEIDON_HASH_BYTES_IN_FIELD as int),
            start == code.len() || start == POSEIDON_HASH_BYTES_IN_FIELD * msg.len(),
            forall|j: int| 0 <= j < msg.len() ==> #[trigger] msg@[j]@ == code_element(code@, j),
        decreases code.len() - start,
    {
        let end: usize = if code.len() - start > POSEIDON_HASH_BYTES_IN_FIELD {
            start + POSEIDON_HASH_BYTES_IN_FIELD
        } else {
            code.len()
        };
        let f = chunk_element(code, start, end);
        proof {
            assert(code_chunk(code@, msg.len() as int) =~= code@.subrange(start as int, end as int));
        }
        msg.push(f);
        start = end;
    }
    let ghost elements = code_elements(code@);
    assert(values(msg@) =~= elements);
    let cap = Fr::from_raw([0u64, code.len() as u64, 0u64, 0u64]);
    let h = if msg.len() == 1 {
        let h1 = hash_with_domain(&[msg[0], Fr::zero()], cap);
        assert(init_state_spec(cap@, elements) =~= seq![cap@, msg@[0]@, 0]);
        h1
    } else {
        sponge(msg.as_slice(), &cap)
    };
    to_be_bytes(&h)
}


/// The hash of the empty message, with no capacity or with capacity zero,
/// and the hash of empty code, are all the hash of the pair `(0, 0)` under
/// domain zero.
pub proof fn lemma_empty_message_hash()
    ensures
        hash_msg_spec(Seq::empty(), msg_capacity(0, None)) == hash_with_domain_spec(0, 0, 0),
        hash_msg_spec(Seq::empty(), msg_capacity(0, Some(0u128))) == hash_with_domain_spec(0, 0, 0),
        hash_code_spec(Seq::empty()) == hash_with_domain_spec(0, 0, 0),
{
    assert(init_state_spec(0, Seq::empty()) =~= seq![0nat, 0nat, 0nat]);
}

/// A message of at most two elements hashes like the pair of its elements
/// (zero for missing ones) under the capacity as domain.
pub proof fn lemma_short_message_hash(msg: Seq<nat>, cap: nat)
    requires
        msg.len() <= 2,
    ensures
        hash_msg_spec(msg, cap) == hash_with_domain_spec(
            if msg.len() > 0 { msg[0] } else { 0 },
            if msg.len() > 1 { msg[1] } else { 0 },
            cap,
        ),
{
    assert(init_state_spec(cap, msg) =~= seq![
        cap,
        if msg.len() > 0 { msg[0] } else { 0 },
        if msg.len() > 1 { msg[1] } else { 0 },
    ]);
}

/// Without a capacity, a message hashes as with the capacity
/// `len * 2^64`.
pub proof fn lemma_default_capacity(msg: Seq<nat>, c: u128)
    requires
        c == msg.len() * two_pow_64(),
    ensures
        hash_msg_spec(msg, msg_capacity(msg.len(), None)) == hash_msg_spec(
            msg,
            msg_capacity(msg.len(), Some(c)),
        ),
{
}

/// Non-empty code hashes as the message of its chunk elements under the
/// capacity `len * 2^64`.
pub proof fn lemma_code_hash_is_message_hash(code: Seq<u8>, c: u128)
    requires
        code.len() > 0,
        c == code.len() * two_pow_64(),
    ensures
        hash_code_spec(code) == hash_msg_spec(
            code_elements(code),
            msg_capacity(code_elements(code).len(), Some(c)),
        ),
{
}

/// Every chunk element of code is below the modulus: 31 bytes always fit
/// in the field.
pub proof fn lemma_code_element_below_modulus(code: Seq<u8>, j: int)
    requires
        0 <= j < code_chunk_count(code.len()),
    ensures
        code_element(code, j) < modulus(),
{
    let c = code_chunk(code, j);
    let x = c + Seq::new((POSEIDON_HASH_BYTES_IN_FIELD - c.len()) as nat, |k: int| 0u8);
    lemma_le_value_bound(x.reverse());
    reveal_with_fuel(pow256, 32);
    assert(pow256(31) < modulus());
}


/// The hash of a pair `(a, b)` under a domain `d` is the first element of
/// the permutation of the state `[d, a, b]`: the domain takes the capacity
/// slot and the pair the rate slots, in order.
pub proof fn lemma_pair_hash_is_permutation(a: nat, b: nat, d: nat)
    ensures
        hash_with_domain_spec(a, b, d) == permutation_spec(seq![d, a, b])[0],
{
}

/// The sponge starts by permuting `[cap, msg[0], msg[1]]`, with zero in
/// place of missing elements.
pub proof fn lemma_first_absorption(cap: nat, msg: Seq<nat>)
    ensures
        absorb_spec(cap, msg, 0) == permutation_spec(
            seq![
                cap,
                if msg.len() > 0 { msg[0] } else { 0 },
                if msg.len() > 1 { msg[1] } else { 0 },
            ],
        ),
{
    assert(init_state_spec(cap, msg) =~= seq![
        cap,
        if msg.len() > 0 { msg[0] } else { 0 },
        if msg.len() > 1 { msg[1] } else { 0 },
    ]);
}

/// A one-element message `[a]` hashes as the state `[cap, a, 0]`: the element
/// goes to the first rate slot.
pub proof fn lemma_one_element_message(a: nat, cap: nat)
    ensures
        hash_msg_spec(seq![a], cap) == permutation_spec(seq![cap, a, 0])[0],
{
    lemma_first_absorption(cap, seq![a]);
}

/// The sponge state after `k` chunks reads only the first `2 k + 2` elements
/// of the message.
proof fn lemma_absorb_prefix(cap: nat, p: Seq<nat>, t: Seq<nat>, k: nat)
    requires
        2 * k + 2 <= p.len(),
    ensures
        absorb_spec(cap, p + t, k) == absorb_spec(cap, p, k),
    decreases k,
{
    let q = p + t;
    if k == 0 {
        assert(init_state_spec(cap, q) =~= init_state_spec(cap, p));
    } else {
        lemma_absorb_prefix(cap, p, t, (k - 1) as nat);
        assert(q[2 * k as int] == p[2 * k as int]);
        assert(q[(2 * k + 1) as int] == p[(2 * k + 1) as int]);
    }
}

/// Hashing a message extended by a full chunk `[x, y]`: from the sponge state
/// `S` of the even-length message `p`, the extended message permutes
/// `[S[0], S[1] + x, S[2] + y]`. Every element of the chunk is added into the
/// rate.
pub proof fn lemma_absorb_full_chunk(cap: nat, p: Seq<nat>, x: nat, y: nat)
    requires
        p.len() >= 2,
        p.len() % 2 == 0,
    ensures
        ({
            let s = absorb_spec(cap, p, extra_chunks(p.len()));
            absorb_spec(cap, p + seq![x, y], extra_chunks(p.len() + 2)) == permutation_spec(
                seq![s[0], (s[1] + x) % modulus(), (s[2] + y) % modulus()],
            )
        }),
{
    let m = extra_chunks(p.len());
    let q = p + seq![x, y];
    assert(extra_chunks(q.len()) == m + 1);
    assert(2 * m + 2 == p.len());
    lemma_absorb_prefix(cap, p, seq![x, y], m);
    assert(q[(2 * (m + 1)) as int] == x);
    assert(q[(2 * (m + 1) + 1) as int] == y);
}

/// Hashing a message extended by a last single element `x`: from the sponge
/// state `S` of the even-length message `p`, the extended message permutes
/// `[S[0], S[1] + x, S[2]]`.
pub proof fn lemma_absorb_last_element(cap: nat, p: Seq<nat>, x: nat)
    requires
        p.len() >= 2,
        p.len() % 2 == 0,
    ensures
        ({
            let s = absorb_spec(cap, p, extra_chunks(p.len()));
            absorb_spec(cap, p + seq![x], extra_chunks(p.len() + 1)) == permutation_spec(
                seq![s[0], (s[1] + x) % modulus(), s[2]],
            )
        }),
{
    let m = extra_chunks(p.len());
    let q = p + seq![x];
    assert(extra_chunks(q.len()) == m + 1);
    assert(2 * m + 2 == p.len());
    lemma_absorb_prefix(cap, p, seq![x], m);
    assert(q[(2 * (m + 1)) as int] == x);
}

/// The hash of a message is the first element of its final sponge state;
/// in particular a message of at least two elements extended by `[x, y]`
/// hashes to the first element of the permutation of
/// `[S[0], S[1] + x, S[2] + y]`.
pub proof fn lemma_hash_of_extended_message(cap: nat, p: Seq<nat>, x: nat, y: nat)
    requires
        p.len() >= 2,
        p.len() % 2 == 0,
    ensures
        ({
            let s = absorb_spec(cap, p, extra_chunks(p.len()));
            hash_msg_spec(p + seq![x, y], cap) == permutation_spec(
                seq![s[0], (s[1] + x) % modulus(), (s[2] + y) % modulus()],
            )[0]
        }),
{
    lemma_absorb_full_chunk(cap, p, x, y);
}

/// Code of `n` bytes is cut into exactly `ceil(n / 31)` chunks: enough to
/// hold every byte, and no chunk left empty.
pub proof fn lemma_code_chunk_count(n: nat)
    ensures
        code_chunk_count(n) * POSEIDON_HASH_BYTES_IN_FIELD >= n,
        n > 0 ==> (code_chunk_count(n) - 1) * POSEIDON_HASH_BYTES_IN_FIELD < n,
        n == 0 ==> code_chunk_count(n) == 0,
{
}

/// Code of 1 to 31 bytes hashes as the state `[n * 2^64, e, 0]`, where `e`
/// is the code padded with zero bytes to 31 and read big-endian.
pub proof fn lemma_short_code_hash(code: Seq<u8>)
    requires
        0 < code.len() <= POSEIDON_HASH_BYTES_IN_FIELD,
    ensures
        hash_code_spec(code) == permutation_spec(
            seq![
                code.len() * two_pow_64(),
                be_value(code + Seq::new((POSEIDON_HASH_BYTES_IN_FIELD - code.len()) as nat, |k: int| 0u8)),
                0,
            ],
        )[0],
{
    let els = code_elements(code);
    assert(els.len() == 1);
    assert(code_chunk(code, 0) =~= code);
    lemma_first_absorption(code.len() * two_pow_64(), els);
}

/// Code of 32 to 62 bytes hashes as the state `[n * 2^64, e0, e1]`: `e0` is
/// its first 31 bytes read big-endian, `e1` the rest padded with zero bytes to
/// 31 and read big-endian; one permutation, no further chunk.
pub proof fn lemma_two_chunk_code_hash(code: Seq<u8>)
    requires
        POSEIDON_HASH_BYTES_IN_FIELD < code.len() <= 2 * POSEIDON_HASH_BYTES_IN_FIELD,
    ensures
        hash_code_spec(code) == permutation_spec(
            seq![
                code.len() * two_pow_64(),
                be_value(code.subrange(0, 31)),
                be_value(
                    code.subrange(31, code.len() as int) + Seq::new(
                        (2 * POSEIDON_HASH_BYTES_IN_FIELD - code.len()) as nat,
                        |k: int| 0u8,
                    ),
                ),
            ],
        )[0],
{
    let els = code_elements(code);
    assert(els.len() == 2);
    assert(code_chunk(code, 0) =~= code.subrange(0, 31));
    assert(code.subrange(0, 31) + Seq::new(0, |k: int| 0u8) =~= code.subrange(0, 31));
    assert(code_chunk(code, 1) =~= code.subrange(31, code.len() as int));
    assert(Seq::new((POSEIDON_HASH_BYTES_IN_FIELD - (code.len() - 31)) as nat, |k: int| 0u8) =~= Seq::new(
        (2 * POSEIDON_HASH_BYTES_IN_FIELD - code.len()) as nat,
        |k: int| 0u8,
    ));
    lemma_first_absorption(code.len() * two_pow_64(), els);
}


/// Without a capacity, `hash_msg` uses the message length times `2^64`;
/// with one, it uses that value.
pub proof fn lemma_capacity_values(n: nat, c: u128)
    ensures
        msg_capacity(n, None) == n * 0x1_0000_0000_0000_0000nat,
        msg_capacity(n, Some(c)) == c as nat,
{
}

/// Every byte of code lands in its chunk at its place: byte `i` is byte
/// `i mod 31` of chunk `i / 31`. Every chunk but the last holds 31 bytes, and
/// the last is not empty.
pub proof fn lemma_code_chunks_cover(code: Seq<u8>, i: int)
    requires
        0 <= i < code.len(),
    ensures
        i / 31 < code_chunk_count(code.len()),
        code_chunk(code, i / 31)[i % 31] == code[i],
        i / 31 + 1 < code_chunk_count(code.len()) ==> code_chunk(code, i / 31).len() == 31,
        code_chunk(code, (code_chunk_count(code.len()) - 1) as int).len() > 0,
{
}

} // verus!
