//! Elements of the BN254 scalar field.
//!
//! A field element is kept as four little-endian 64-bit limbs holding its
//! canonical value (below the modulus). The arithmetic itself is done by
//! `halo2curves`; the library only reads and writes canonical limbs.

use vstd::prelude::*;

verus! {

/// The BN254 scalar field modulus
/// `0x30644e72e131a029b85045b68181585d2833e84879b9709143e1f593f0000001`.
pub open spec fn modulus() -> nat {
    21888242871839275222246405745257275088548364400416034343698204186575808495617nat
}

/// The integer that four little-endian 64-bit limbs stand for.
pub open spec fn limbs_value(l: [u64; 4]) -> nat {
    l[0] as nat + l[1] as nat * 0x1_0000_0000_0000_0000nat
        + l[2] as nat * 0x1_0000_0000_0000_0000_0000_0000_0000_0000nat
        + l[3] as nat * 0x1_0000_0000_0000_0000_0000_0000_0000_0000_0000_0000_0000_0000nat
}

/// The integer that a little-endian byte string stands for.
pub open spec fn le_value(s: Seq<u8>) -> nat
    decreases s.len(),
{
    if s.len() == 0 {
        0
    } else {
        s[0] as nat + 256 * le_value(s.drop_first())
    }
}

/// `256^n`.
pub open spec fn pow256(n: nat) -> nat
    decreases n,
{
    if n == 0 {
        1
    } else {
        256 * pow256((n - 1) as nat)
    }
}

/// The integer that a big-endian byte string stands for.
pub open spec fn be_value(s: Seq<u8>) -> nat {
    le_value(s.reverse())
}

/// `halo2curves::bn256::Fr::from_raw(a) + Fr::from_raw(b)`, as canonical
/// little-endian bytes (`to_bytes`). `from_raw` takes any four limbs to the
/// congruent field element; the sum is the field sum, and `to_bytes` gives
/// its canonical little-endian encoding.
#[verifier::external_body]
fn raw_add(a: [u64; 4], b: [u64; 4]) -> (r: [u8; 32])
    ensures
        le_value(r@) == (limbs_value(a) + limbs_value(b)) % modulus(),
{
    halo2curves::bn256::Fr::from_raw(a).add(&halo2curves::bn256::Fr::from_raw(b)).to_bytes()
}

/// `halo2curves::bn256::Fr::from_raw(a) * Fr::from_raw(b)`, as canonical
/// little-endian bytes: the field product of the values congruent to the limbs.
#[verifier::external_body]
fn raw_mul(a: [u64; 4], b: [u64; 4]) -> (r: [u8; 32])
    ensures
        le_value(r@) == (limbs_value(a) * limbs_value(b)) % modulus(),
{
    halo2curves::bn256::Fr::from_raw(a).mul(&halo2curves::bn256::Fr::from_raw(b)).to_bytes()
}

/// `halo2curves::bn256::Fr::from_raw(a).square()`, as canonical little-endian
/// bytes: the field square of the value congruent to the limbs.
#[verifier::external_body]
fn raw_square(a: [u64; 4]) -> (r: [u8; 32])
    ensures
        le_value(r@) == (limbs_value(a) * limbs_value(a)) % modulus(),
{
    halo2curves::bn256::Fr::from_raw(a).square().to_bytes()
}

/// `halo2curves::bn256::Fr::from_raw(a)`, as canonical little-endian bytes:
/// the field element congruent to the integer the limbs stand for.
#[verifier::external_body]
fn raw_reduce(a: [u64; 4]) -> (r: [u8; 32])
    ensures
        le_value(r@) == limbs_value(a) % modulus(),
{
    halo2curves::bn256::Fr::from_raw(a).to_bytes()
}

/// `<halo2curves::bn256::Fr as ff::PrimeField>::from_u128(v)`, as canonical
/// little-endian bytes: the field element whose value is `v` (every `u128`
/// is below the modulus).
#[verifier::external_body]
fn u128_to_field(v: u128) -> (r: [u8; 32])
    ensures
        le_value(r@) == v as nat,
{
    <halo2curves::bn256::Fr as halo2curves::ff::PrimeField>::from_u128(v).to_bytes()
}


/// `halo2curves::bn256::Fr::from_bytes(b).is_some()`: whether the
/// little-endian bytes encode a value below the modulus (the canonical
/// encodings are exactly those).
#[verifier::external_body]
fn bytes_are_canonical(b: &[u8; 32]) -> (r: bool)
    ensures
        r == (le_value(b@) < modulus()),
{
    bool::from(halo2curves::bn256::Fr::from_bytes(b).is_some())
}

/// Assembles a `u64` from eight little-endian bytes.
fn u64_from_le(b: &[u8; 32], off: usize) -> (x: u64)
    requires
        off + 8 <= 32,
    ensures
        x as nat == le_value(b@.subrange(off as int, off + 8)),
{
    let b0: u8 = b[off];
    let b1: u8 = b[off + 1];
    let b2: u8 = b[off + 2];
    let b3: u8 = b[off + 3];
    let b4: u8 = b[off + 4];
    let b5: u8 = b[off + 5];
    let b6: u8 = b[off + 6];
    let b7: u8 = b[off + 7];
    let x: u64 = (b0 as u64) | ((b1 as u64) << 8u64) | ((b2 as u64) << 16u64) | ((b3 as u64) << 24u64)
        | ((b4 as u64) << 32u64) | ((b5 as u64) << 40u64) | ((b6 as u64) << 48u64) | ((b7 as u64) << 56u64);
    assert(x == b0 + 256 * (b1 + 256 * (b2 + 256 * (b3 + 256 * (b4 + 256 * (b5 + 256 * (b6 + 256 * b7 as int))))))) by (bit_vector)
        requires x == (b0 as u64) | ((b1 as u64) << 8u64) | ((b2 as u64) << 16u64) | ((b3 as u64) << 24u64)
        | ((b4 as u64) << 32u64) | ((b5 as u64) << 40u64) | ((b6 as u64) << 48u64) | ((b7 as u64) << 56u64);
    proof {
        let s = b@.subrange(off as int, off + 8);
        reveal_with_fuel(le_value, 9);
        assert(s.drop_first().drop_first().drop_first().drop_first().drop_first().drop_first().drop_first().drop_first().len() == 0);
    }
    x
}


/// Splitting a little-endian byte string at `k` splits its value.
pub proof fn lemma_le_value_split(s: Seq<u8>, k: int)
    requires
        0 <= k <= s.len(),
    ensures
        le_value(s) == le_value(s.subrange(0, k)) + pow256(k as nat) * le_value(s.subrange(k, s.len() as int)),
    decreases k,
{
    if k == 0 {
        assert(s.subrange(k, s.len() as int) =~= s);
        assert(le_value(s.subrange(0, k)) == 0);
        assert(pow256(k as nat) == 1);
        assert(le_value(s) == le_value(s.subrange(0, k)) + pow256(k as nat) * le_value(s.subrange(k, s.len() as int)));
    } else {
        let t = s.drop_first();
        lemma_le_value_split(t, k - 1);
        assert(s.subrange(0, k).drop_first() =~= t.subrange(0, k - 1));
        assert(t.subrange(k - 1, t.len() as int) =~= s.subrange(k, s.len() as int));
        let a = le_value(t.subrange(0, k - 1));
        let c = le_value(s.subrange(k, s.len() as int));
        let p = pow256((k - 1) as nat);
        assert(s.subrange(0, k)[0] == s[0]);
        assert(le_value(s.subrange(0, k)) == s[0] + 256 * a);
        assert(pow256(k as nat) == 256 * p);
        assert(256 * (a + p * c) == 256 * a + (256 * p) * c) by (nonlinear_arith);
        assert(le_value(s) == s[0] + 256 * le_value(t));
        assert(le_value(t) == a + p * c);
    }
}

/// A little-endian byte string of length `n` stands for a value below `256^n`.
pub proof fn lemma_le_value_bound(s: Seq<u8>)
    ensures
        le_value(s) < pow256(s.len()),
    decreases s.len(),
{
    if s.len() == 0 {
    } else {
        let t = s.drop_first();
        lemma_le_value_bound(t);
        let p = pow256(t.len());
        let v = le_value(t);
        assert(s[0] + 256 * v < 256 * p) by (nonlinear_arith)
            requires v < p, s[0] < 256;
    }
}

/// Little-endian encodings of one length are unique: equal values mean
/// equal bytes. So decoding an element's canonical encoding and encoding it
/// again gives back the same bytes.
pub proof fn lemma_le_value_injective(a: Seq<u8>, b: Seq<u8>)
    requires
        a.len() == b.len(),
        le_value(a) == le_value(b),
    ensures
        a == b,
    decreases a.len(),
{
    if a.len() > 0 {
        let ta = le_value(a.drop_first());
        let tb = le_value(b.drop_first());
        assert(a[0] == b[0] && ta == tb) by (nonlinear_arith)
            requires
                a[0] + 256 * ta == b[0] + 256 * tb,
                a[0] < 256,
                b[0] < 256,
        ;
        lemma_le_value_injective(a.drop_first(), b.drop_first());
        assert(a =~= seq![a[0]] + a.drop_first());
        assert(b =~= seq![b[0]] + b.drop_first());
    } else {
        assert(a =~= b);
    }
}

/// Reads four little-endian 64-bit limbs from 32 little-endian bytes.
fn limbs_from_le_bytes(b: &[u8; 32]) -> (l: [u64; 4])
    ensures
        limbs_value(l) == le_value(b@),
{
    let l0: u64 = u64_from_le(b, 0);
    let l1: u64 = u64_from_le(b, 8);
    let l2: u64 = u64_from_le(b, 16);
    let l3: u64 = u64_from_le(b, 24);
    proof {
        let s = b@;
        lemma_le_value_split(s, 8);
        let s1 = s.subrange(8, 32);
        lemma_le_value_split(s1, 8);
        let s2 = s1.subrange(8, 24);
        lemma_le_value_split(s2, 8);
        assert(s.subrange(8, 16) =~= s1.subrange(0, 8));
        assert(s.subrange(16, 24) =~= s2.subrange(0, 8));
        assert(s.subrange(24, 32) =~= s2.subrange(8, 16));
        reveal_with_fuel(pow256, 9);
        assert(pow256(8) == 0x1_0000_0000_0000_0000nat);
        let p8 = pow256(8);
        let v0 = le_value(s.subrange(0, 8));
        let v1 = le_value(s1.subrange(0, 8));
        let v2 = le_value(s2.subrange(0, 8));
        let v3 = le_value(s2.subrange(8, 16));
        assert(le_value(s) == v0 + p8 * (v1 + p8 * (v2 + p8 * v3)));
        assert(l0 == v0 && l1 == v1 && l2 == v2 && l3 == v3);
        assert(v0 + p8 * (v1 + p8 * (v2 + p8 * v3)) == limbs_value([l0, l1, l2, l3])) by (nonlinear_arith)
            requires
                p8 == 0x1_0000_0000_0000_0000nat,
                l0 == v0, l1 == v1, l2 == v2, l3 == v3;
    }
    [l0, l1, l2, l3]
}


/// An element of the BN254 scalar field, kept in canonical form: four
/// little-endian 64-bit limbs whose value is below the modulus.
#[derive(Clone, Copy, PartialEq, Eq, Debug)]
pub struct Fr {
    limbs: [u64; 4],
}

impl View for Fr {
    type V = nat;

    /// The value of the element, an integer in `[0, modulus())`.
    closed spec fn view(&self) -> nat {
        limbs_value(self.limbs)
    }
}

impl Fr {
    #[verifier::type_invariant]
    spec fn is_canonical(self) -> bool {
        limbs_value(self.limbs) < modulus()
    }

    /// Builds an element from canonical little-endian bytes.
    fn from_canonical_bytes(b: &[u8; 32]) -> (r: Fr)
        requires
            le_value(b@) < modulus(),
        ensures
            r@ == le_value(b@),
    {
        Fr { limbs: limbs_from_le_bytes(b) }
    }

    /// The additive identity.
    pub fn zero() -> (r: Fr)
        ensures
            r@ == 0,
    {
        Fr { limbs: [0u64, 0u64, 0u64, 0u64] }
    }

    /// The element whose value is `v`.
    pub fn from_u64(v: u64) -> (r: Fr)
        ensures
            r@ == v as nat,
    {
        Fr { limbs: [v, 0u64, 0u64, 0u64] }
    }

    /// The element whose value is `v`.
    pub fn from_u128(v: u128) -> (r: Fr)
        ensures
            r@ == v as nat,
    {
        let b = u128_to_field(v);
        proof {
            assert((v as nat) < modulus());
        }
        Fr::from_canonical_bytes(&b)
    }

    /// The element congruent to the integer that the little-endian limbs
    /// stand for.
    pub fn from_raw(limbs: [u64; 4]) -> (r: Fr)
        ensures
            r@ == limbs_value(limbs) % modulus(),
    {
        let b = raw_reduce(limbs);
        Fr::from_canonical_bytes(&b)
    }

    /// Decodes canonical little-endian bytes; `None` when they encode a
    /// value that is not below the modulus.
    pub fn from_bytes(bytes: &[u8; 32]) -> (r: Option<Fr>)
        ensures
            r is Some <==> le_value(bytes@) < modulus(),
            r matches Some(f) ==> f@ == le_value(bytes@),
    {
        if bytes_are_canonical(bytes) {
            Some(Fr::from_canonical_bytes(bytes))
        } else {
            None
        }
    }

    /// The canonical little-endian encoding of the element.
    pub fn to_repr(&self) -> (r: [u8; 32])
        ensures
            le_value(r@) == self@,
            le_value(r@) < modulus(),
    {
        proof {
            use_type_invariant(self);
        }
        raw_reduce(self.limbs)
    }

    /// Whether the element is zero.
    pub fn is_zero_vartime(&self) -> (r: bool)
        ensures
            r == (self@ == 0),
    {
        self.limbs[0] == 0 && self.limbs[1] == 0 && self.limbs[2] == 0 && self.limbs[3] == 0
    }

    /// The sum of the element and the field element congruent to the raw
    /// limbs `c`.
    pub fn add_raw(&self, c: &[u64; 4]) -> (r: Fr)
        ensures
            r@ == (self@ + limbs_value(*c)) % modulus(),
    {
        let b = raw_add(self.limbs, *c);
        Fr::from_canonical_bytes(&b)
    }

    /// The product of the element and the field element congruent to the
    /// raw limbs `c`.
    pub fn mul_raw(&self, c: &[u64; 4]) -> (r: Fr)
        ensures
            r@ == (self@ * limbs_value(*c)) % modulus(),
    {
        let b = raw_mul(self.limbs, *c);
        Fr::from_canonical_bytes(&b)
    }

    /// The field sum.
    pub fn add(&self, other: &Fr) -> (r: Fr)
        ensures
            r@ == (self@ + other@) % modulus(),
    {
        self.add_raw(&other.limbs)
    }

    /// The field product.
    pub fn mul(&self, other: &Fr) -> (r: Fr)
        ensures
            r@ == (self@ * other@) % modulus(),
    {
        self.mul_raw(&other.limbs)
    }

    /// The field square.
    pub fn square(&self) -> (r: Fr)
        ensures
            r@ == (self@ * self@) % modulus(),
    {
        let b = raw_square(self.limbs);
        Fr::from_canonical_bytes(&b)
    }

    /// Adds `other` in place.
    pub fn add_assign(&mut self, other: &Fr)
        ensures
            final(self)@ == (old(self)@ + other@) % modulus(),
    {
        *self = self.add(other);
    }

    /// Multiplies by `other` in place.
    pub fn mul_assign(&mut self, other: &Fr)
        ensures
            final(self)@ == (old(self)@ * other@) % modulus(),
    {
        *self = self.mul(other);
    }
}

} // verus!
