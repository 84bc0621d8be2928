//! The Poseidon permutation on a state of three field elements.

use crate::constants::{
    lemma_mds_entries, mds_entry, mds_entry_spec, round_constants, round_constants_spec, FULL_ROUNDS, PARTIAL_ROUNDS, T,
};
use crate::field::{limbs_value, modulus, Fr};
use vstd::arithmetic::div_mod::{
    lemma_add_mod_noop_right, lemma_fundamental_div_mod, lemma_mod_multiples_vanish, lemma_mul_mod_noop,
    lemma_mul_mod_noop_left, lemma_small_mod, lemma_sub_mod_noop_right,
};
use vstd::arithmetic::power::{lemma_pow_distributes, lemma_pow_mod_noop, pow};
use vstd::prelude::*;

verus! {

/// The values of the three elements of a state.
pub open spec fn state_view(s: [Fr; 3]) -> Seq<nat> {
    seq![s[0]@, s[1]@, s[2]@]
}

/// The values of a sequence of field elements.
pub open spec fn values(s: Seq<Fr>) -> Seq<nat> {
    s.map_values(|f: Fr| f@)
}

/// Entry `(i, j)` of the inverse of the MDS matrix modulo the field modulus.
pub open spec fn mds_inverse_entry(i: int, j: int) -> nat {
    if i == 0 {
        if j == 0 {
            14581990407185373640425896461718924180109794780799188900903678642755512839974nat
        } else if j == 1 {
            18866968878651837536281064213261914109651535895144158735451177080294903852066nat
        } else {
            7839627026775837327267018712780335784833794955194428770232963186824469625450nat
        }
    } else if i == 1 {
        if j == 0 {
            18938579070830856475783700955955783311402730090941909099413093949983854639956nat
        } else if j == 1 {
            8613994242085266665256493323589366394657716111166474713216639394202078033993nat
        } else {
            5498488707276883206944027953979269171532592088279065622083714982398440150521nat
        }
    } else {
        if j == 0 {
            655752878747070013666604006434797489161341466456915955415098407670323222025nat
        } else if j == 1 {
            4856172836225950379592127603074379105027349156448153533703883389233432728400nat
        } else {
            10503264605839191981081969978629584646259107387222177725485772749763096823552nat
        }
    }
}

/// Row `i` of the inverse MDS matrix applied to a state.
pub open spec fn mds_inverse_row_spec(t: Seq<nat>, i: int) -> nat {
    (mds_inverse_entry(i, 0) * t[0] + mds_inverse_entry(i, 1) * t[1] + mds_inverse_entry(i, 2) * t[2])
        % modulus()
}

/// The inverse MDS matrix applied to a state.
pub open spec fn mds_inverse_spec(t: Seq<nat>) -> Seq<nat> {
    seq![mds_inverse_row_spec(t, 0), mds_inverse_row_spec(t, 1), mds_inverse_row_spec(t, 2)]
}

/// The MDS matrix, read back: its inverse modulo the field modulus, applied to
/// the MDS image of a reduced state, gives the state back.
pub proof fn lemma_mds_inverse(s: Seq<nat>)
    requires
        s.len() == 3,
        s[0] < modulus(),
        s[1] < modulus(),
        s[2] < modulus(),
    ensures
        mds_inverse_spec(mds_spec(s)) == s,
{
    lemma_mds_entries();
    let p = modulus() as int;
    let l0: int = (s[0] * limbs_value(mds_entry_spec(0, 0)) + s[1] * limbs_value(mds_entry_spec(0, 1)) + s[2] * limbs_value(mds_entry_spec(0, 2))) as int;
    assert(l0 == s[0] * 7511745149465107256748700652201246547602992235352608707588321460060273774987 + s[1] * 10370080108974718697676803824769673834027675643658433702224577712625900127200 + s[2] * 19705173408229649878903981084052839426532978878058043055305024233888854471533);
    lemma_fundamental_div_mod(l0, p);
    let t0: int = l0 % p;
    assert(mds_row_spec(s, 0) == t0);
    let l1: int = (s[0] * limbs_value(mds_entry_spec(1, 0)) + s[1] * limbs_value(mds_entry_spec(1, 1)) + s[2] * limbs_value(mds_entry_spec(1, 2))) as int;
    assert(l1 == s[0] * 18732019378264290557468133440468564866454307626475683536618613112504878618481 + s[1] * 20870176810702568768751421378473869562658540583882454726129544628203806653987 + s[2] * 7266061498423634438633389053804536045105766754026813321943009179476902321146);
    lemma_fundamental_div_mod(l1, p);
    let t1: int = l1 % p;
    assert(mds_row_spec(s, 1) == t1);
    let l2: int = (s[0] * limbs_value(mds_entry_spec(2, 0)) + s[1] * limbs_value(mds_entry_spec(2, 1)) + s[2] * limbs_value(mds_entry_spec(2, 2))) as int;
    assert(l2 == s[0] * 9131299761947733513298312097611845208338517739621853568979632113419485819303 + s[1] * 10595341252162738537912664445405114076324478519622938027420701542910180337937 + s[2] * 11597556804922396090267472882856054602429588299176362916247939723151043581408);
    lemma_fundamental_div_mod(l2, p);
    let t2: int = l2 % p;
    assert(mds_row_spec(s, 2) == t2);
    let x0: int = 14581990407185373640425896461718924180109794780799188900903678642755512839974 * t0 + 18866968878651837536281064213261914109651535895144158735451177080294903852066 * t1 + 7839627026775837327267018712780335784833794955194428770232963186824469625450 * t2;
    let z0: int = 24421266242701224151166455809695715776577433535138444607497447288673434504649 * s[0] + 28692888340373831831321474486105970927921278628166450715509519950361210344176 * s[1] + 23544590973418360039284379318607129453209932533357350759011411069925930771234 * s[2] - (14581990407185373640425896461718924180109794780799188900903678642755512839974 * (l0 / p) + 18866968878651837536281064213261914109651535895144158735451177080294903852066 * (l1 / p) + 7839627026775837327267018712780335784833794955194428770232963186824469625450 * (l2 / p));
    assert(x0 == p * z0 + s[0]);
    lemma_mod_multiples_vanish(z0, s[0] as int, p);
    lemma_small_mod(s[0], modulus());
    let x1: int = 18938579070830856475783700955955783311402730090941909099413093949983854639956 * t0 + 8613994242085266665256493323589366394657716111166474713216639394202078033993 * t1 + 5498488707276883206944027953979269171532592088279065622083714982398440150521 * t2;
    let z1: int = 16165191387707349043979081122135538934759502030707191432397551310866139508804 * s[0] + 19847574415260402948292223511099750978171593260061067729989598147965480066051 * s[1] + 22822610049380374054259998889110444429975594963446981466394663836744307609582 * s[2] - (18938579070830856475783700955955783311402730090941909099413093949983854639956 * (l0 / p) + 8613994242085266665256493323589366394657716111166474713216639394202078033993 * (l1 / p) + 5498488707276883206944027953979269171532592088279065622083714982398440150521 * (l2 / p));
    assert(x1 == p * z1 + s[1]);
    lemma_mod_multiples_vanish(z1, s[1] as int, p);
    lemma_small_mod(s[1], modulus());
    let x2: int = 655752878747070013666604006434797489161341466456915955415098407670323222025 * t0 + 4856172836225950379592127603074379105027349156448153533703883389233432728400 * t1 + 10503264605839191981081969978629584646259107387222177725485772749763096823552 * t2;
    let z2: int = 8762705663335765458799731959730787663282525842689916887741984931313181595443 * s[0] + 10025248241493679127842390074842921177831080217081053406711354705756145425872 * s[1] + 7767603071772430270314377223182923066725237811937674752009417279454632728820 * s[2] - (655752878747070013666604006434797489161341466456915955415098407670323222025 * (l0 / p) + 4856172836225950379592127603074379105027349156448153533703883389233432728400 * (l1 / p) + 10503264605839191981081969978629584646259107387222177725485772749763096823552 * (l2 / p));
    assert(x2 == p * z2 + s[2]);
    lemma_mod_multiples_vanish(z2, s[2] as int, p);
    lemma_small_mod(s[2], modulus());
    assert(mds_inverse_spec(mds_spec(s)) =~= s);
}

/// The S-box: `x^5` in the field.
pub open spec fn sbox_spec(x: nat) -> nat {
    (x * x * x * x * x) % modulus()
}

/// Adds a row of round constants to a state, element by element.
pub open spec fn add_round_constants_spec(s: Seq<nat>, rcs: [[u64; 4]; 3]) -> Seq<nat> {
    seq![
        (s[0] + limbs_value(rcs[0])) % modulus(),
        (s[1] + limbs_value(rcs[1])) % modulus(),
        (s[2] + limbs_value(rcs[2])) % modulus(),
    ]
}

/// Row `i` of the MDS matrix applied to a state.
pub open spec fn mds_row_spec(s: Seq<nat>, i: int) -> nat {
    (s[0] * limbs_value(mds_entry_spec(i, 0)) + s[1] * limbs_value(mds_entry_spec(i, 1)) + s[2] * limbs_value(
        mds_entry_spec(i, 2),
    )) % modulus()
}

/// The MDS matrix applied to a state.
pub open spec fn mds_spec(s: Seq<nat>) -> Seq<nat> {
    seq![mds_row_spec(s, 0), mds_row_spec(s, 1), mds_row_spec(s, 2)]
}

/// A full round: constants, the S-box on every element, then the MDS matrix.
pub open spec fn full_round_spec(s: Seq<nat>, rcs: [[u64; 4]; 3]) -> Seq<nat> {
    let a = add_round_constants_spec(s, rcs);
    mds_spec(seq![sbox_spec(a[0]), sbox_spec(a[1]), sbox_spec(a[2])])
}

/// A partial round: constants, the S-box on the first element only, then the
/// MDS matrix.
pub open spec fn partial_round_spec(s: Seq<nat>, rcs: [[u64; 4]; 3]) -> Seq<nat> {
    let a = add_round_constants_spec(s, rcs);
    mds_spec(seq![sbox_spec(a[0]), a[1], a[2]])
}

/// Whether round `r` is a full round: the first and the last
/// `FULL_ROUNDS / 2` rounds are.
pub open spec fn is_full_round(r: int) -> bool {
    r < (FULL_ROUNDS / 2) as int || r >= (FULL_ROUNDS / 2 + PARTIAL_ROUNDS) as int
}

/// Round `r` of the permutation.
pub open spec fn round_spec(s: Seq<nat>, r: int) -> Seq<nat> {
    if is_full_round(r) {
        full_round_spec(s, round_constants_spec(r))
    } else {
        partial_round_spec(s, round_constants_spec(r))
    }
}

/// The state after the first `n` rounds.
pub open spec fn rounds_spec(s: Seq<nat>, n: nat) -> Seq<nat>
    decreases n,
{
    if n == 0 {
        s
    } else {
        round_spec(rounds_spec(s, (n - 1) as nat), n - 1)
    }
}

/// The Poseidon permutation: all `FULL_ROUNDS + PARTIAL_ROUNDS` rounds.
pub open spec fn permutation_spec(s: Seq<nat>) -> Seq<nat> {
    rounds_spec(s, (FULL_ROUNDS + PARTIAL_ROUNDS) as nat)
}

/// A state of three values, each reduced modulo the field modulus: the value
/// of a `[Fr; 3]`.
pub open spec fn is_reduced_state(s: Seq<nat>) -> bool {
    &&& s.len() == 3
    &&& s[0] < modulus()
    &&& s[1] < modulus()
    &&& s[2] < modulus()
}

/// The MDS matrix is injective on reduced states.
pub proof fn lemma_mds_injective(s: Seq<nat>, t: Seq<nat>)
    requires
        is_reduced_state(s),
        is_reduced_state(t),
        mds_spec(s) == mds_spec(t),
    ensures
        s == t,
{
    lemma_mds_inverse(s);
    lemma_mds_inverse(t);
}

/// Whether the S-box takes distinct reduced values to distinct values.
pub open spec fn sbox_is_injective() -> bool {
    forall|x: nat, y: nat|
        x < modulus() && y < modulus() && #[trigger] sbox_spec(x) == #[trigger] sbox_spec(y) ==> x
            == y
}

/// Adding a constant modulo the field modulus is injective on reduced values.
pub proof fn lemma_add_constant_injective(x: nat, y: nat, c: nat)
    requires
        x < modulus(),
        y < modulus(),
        (x + c) % modulus() == (y + c) % modulus(),
    ensures
        x == y,
{
    let p = modulus() as int;
    let xc = (x + c) as int;
    let yc = (y + c) as int;
    lemma_fundamental_div_mod(xc, p);
    lemma_fundamental_div_mod(yc, p);
    let d = xc / p - yc / p;
    assert(x - y == p * d);
    assert(d == 0) by (nonlinear_arith)
        requires
            x - y == p * d,
            -p < x - y < p,
            p > 0,
    ;
}

/// Adding a row of round constants is injective on reduced states.
pub proof fn lemma_add_round_constants_injective(s: Seq<nat>, t: Seq<nat>, rcs: [[u64; 4]; 3])
    requires
        is_reduced_state(s),
        is_reduced_state(t),
        add_round_constants_spec(s, rcs) == add_round_constants_spec(t, rcs),
    ensures
        s == t,
{
    let a = add_round_constants_spec(s, rcs);
    let b = add_round_constants_spec(t, rcs);
    assert(a[0] == b[0] && a[1] == b[1] && a[2] == b[2]);
    lemma_add_constant_injective(s[0], t[0], limbs_value(rcs[0]));
    lemma_add_constant_injective(s[1], t[1], limbs_value(rcs[1]));
    lemma_add_constant_injective(s[2], t[2], limbs_value(rcs[2]));
    assert(s =~= t);
}

/// Every round yields a reduced state.
pub proof fn lemma_round_reduced(s: Seq<nat>, r: int)
    ensures
        is_reduced_state(round_spec(s, r)),
{
}

/// The first `n` rounds yield a reduced state from a reduced state.
pub proof fn lemma_rounds_reduced(s: Seq<nat>, n: nat)
    requires
        is_reduced_state(s),
    ensures
        is_reduced_state(rounds_spec(s, n)),
    decreases n,
{
    if n > 0 {
        lemma_round_reduced(rounds_spec(s, (n - 1) as nat), n - 1);
    }
}

/// If the S-box is injective on reduced values, then so is every round on
/// reduced states.
pub proof fn lemma_round_injective_if_sbox_injective(s: Seq<nat>, t: Seq<nat>, r: int)
    requires
        sbox_is_injective(),
        is_reduced_state(s),
        is_reduced_state(t),
        round_spec(s, r) == round_spec(t, r),
    ensures
        s == t,
{
    let rcs = round_constants_spec(r);
    let a = add_round_constants_spec(s, rcs);
    let b = add_round_constants_spec(t, rcs);
    if is_full_round(r) {
        let u = seq![sbox_spec(a[0]), sbox_spec(a[1]), sbox_spec(a[2])];
        let v = seq![sbox_spec(b[0]), sbox_spec(b[1]), sbox_spec(b[2])];
        lemma_mds_injective(u, v);
        assert(u[0] == v[0] && u[1] == v[1] && u[2] == v[2]);
        assert(a =~= b);
    } else {
        let u = seq![sbox_spec(a[0]), a[1], a[2]];
        let v = seq![sbox_spec(b[0]), b[1], b[2]];
        lemma_mds_injective(u, v);
        assert(u[0] == v[0] && u[1] == v[1] && u[2] == v[2]);
        assert(a =~= b);
    }
    lemma_add_round_constants_injective(s, t, rcs);
}

/// If the S-box is injective on reduced values, then so are the first `n`
/// rounds on reduced states.
pub proof fn lemma_rounds_injective_if_sbox_injective(s: Seq<nat>, t: Seq<nat>, n: nat)
    requires
        sbox_is_injective(),
        is_reduced_state(s),
        is_reduced_state(t),
        rounds_spec(s, n) == rounds_spec(t, n),
    ensures
        s == t,
    decreases n,
{
    if n > 0 {
        let m = (n - 1) as nat;
        lemma_rounds_reduced(s, m);
        lemma_rounds_reduced(t, m);
        lemma_round_injective_if_sbox_injective(rounds_spec(s, m), rounds_spec(t, m), m as int);
        lemma_rounds_injective_if_sbox_injective(s, t, m);
    }
}

/// If the S-box is injective on reduced values, then the permutation takes
/// distinct reduced states (the values of distinct `[Fr; 3]`) to distinct
/// states. Every other step (adding constants, the MDS matrix) is proved
/// injective here; the S-box step is the premise.
pub proof fn lemma_permutation_injective_if_sbox_injective(s: Seq<nat>, t: Seq<nat>)
    requires
        sbox_is_injective(),
        is_reduced_state(s),
        is_reduced_state(t),
        permutation_spec(s) == permutation_spec(t),
    ensures
        s == t,
{
    lemma_rounds_injective_if_sbox_injective(s, t, (FULL_ROUNDS + PARTIAL_ROUNDS) as nat);
}

/// `(x^2)^2 * x = x^5` modulo the field modulus.
proof fn lemma_sbox(x: nat, a: nat, b: nat, c: nat)
    requires
        a == (x * x) % modulus(),
        b == (a * a) % modulus(),
        c == (b * x) % modulus(),
    ensures
        c == sbox_spec(x),
{
    let p = modulus() as int;
    let xx = (x * x) as int;
    lemma_mul_mod_noop(xx, xx, p);
    lemma_mul_mod_noop_left(xx * xx, x as int, p);
    assert(xx * xx * x == x * x * x * x * x) by (nonlinear_arith)
        requires
            xx == x * x,
    ;
}

/// The S-box: `val^5`, computed as a square, a square and a product.
pub fn sbox(val: Fr) -> (r: Fr)
    ensures
        r@ == sbox_spec(val@),
{
    let a = val.square();
    let b = a.square();
    let c = b.mul(&val);
    proof {
        lemma_sbox(val@, a@, b@, c@);
    }
    c
}

/// `x * x * x * x * x` is `x^5`.
proof fn lemma_fifth_power(x: int)
    ensures
        pow(x, 5) == x * x * x * x * x,
{
    reveal_with_fuel(pow, 6);
    assert(x * (x * (x * (x * (x * 1)))) == x * x * x * x * x) by (nonlinear_arith);
}

/// The S-box is multiplicative: `(a b)^5 = a^5 b^5` in the field.
pub proof fn lemma_sbox_multiplicative(a: nat, b: nat)
    ensures
        sbox_spec((a * b) % modulus()) == (sbox_spec(a) * sbox_spec(b)) % modulus(),
{
    let p = modulus() as int;
    let ab = (a * b) as int;
    lemma_fifth_power(ab % p);
    lemma_fifth_power(ab);
    lemma_fifth_power(a as int);
    lemma_fifth_power(b as int);
    lemma_pow_mod_noop(ab, 5, p);
    lemma_pow_distributes(a as int, b as int, 5);
    lemma_mul_mod_noop(pow(a as int, 5), pow(b as int, 5), p);
}

/// The S-box fixes zero and one.
pub proof fn lemma_sbox_fixes_zero_and_one()
    ensures
        sbox_spec(0) == 0,
        sbox_spec(1) == 1,
{
}

/// The negation of `x` in the field: `(p - x mod p) mod p`.
pub open spec fn field_neg(x: nat) -> nat {
    ((modulus() as int - (x % modulus()) as int) % (modulus() as int)) as nat
}

/// The S-box commutes with negation: `(-a)^5 = -(a^5)` in the field.
pub proof fn lemma_sbox_odd(a: nat)
    ensures
        sbox_spec(field_neg(a)) == field_neg(sbox_spec(a)),
{
    let p = modulus() as int;
    let r = (a % modulus()) as int;
    let n = (p - r) % p;
    lemma_fifth_power(n);
    lemma_fifth_power(p - r);
    lemma_fifth_power(-r);
    lemma_fifth_power(r);
    lemma_fifth_power(a as int);
    // (p - r) and -r are congruent
    assert((p - r) % p == (-r) % p) by {
        lemma_mod_multiples_vanish(1, -r, p);
    }
    lemma_pow_mod_noop(p - r, 5, p);
    lemma_pow_mod_noop(-r, 5, p);
    assert(pow(-r, 5) == -pow(r, 5)) by {
        assert((-r) * (-r) * (-r) * (-r) * (-r) == -(r * r * r * r * r)) by (nonlinear_arith);
    }
    lemma_pow_mod_noop(a as int, 5, p);
    // (-(r^5)) mod p == (p - (r^5 mod p)) mod p
    lemma_sub_mod_noop_right(p, pow(r, 5), p);
    lemma_mod_multiples_vanish(1, -pow(r, 5), p);
}

/// Applies the S-box in place.
pub fn sbox_inplace(val: &mut Fr)
    ensures
        final(val)@ == sbox_spec(old(val)@),
{
    *val = sbox(*val);
}

/// `dst += a * b`, where `b` is given by raw limbs.
pub fn mul_add_assign(dst: &mut Fr, a: &Fr, b: &[u64; 4])
    ensures
        final(dst)@ == (old(dst)@ + a@ * limbs_value(*b)) % modulus(),
{
    let prod = a.mul_raw(b);
    let ghost d = dst@;
    dst.add_assign(&prod);
    proof {
        lemma_add_mod_noop_right(d as int, (a@ * limbs_value(*b)) as int, modulus() as int);
    }
}

/// Sets every element of the state to `val`.
pub fn fill_state(state: &mut [Fr; 3], val: &Fr)
    ensures
        final(state)[0] == *val,
        final(state)[1] == *val,
        final(state)[2] == *val,
{
    *state = [*val, *val, *val];
}

/// Copies `new_state` into `state`.
pub fn set_state(state: &mut [Fr; 3], new_state: &[Fr; 3])
    ensures
        *final(state) == *new_state,
{
    *state = *new_state;
}


/// The first `j` terms of row `i` of the MDS matrix applied to a state.
pub open spec fn mds_row_prefix(s: Seq<nat>, i: int, j: int) -> nat
    decreases j,
{
    if j <= 0 {
        0
    } else {
        mds_row_prefix(s, i, j - 1) + s[j - 1] * limbs_value(mds_entry_spec(i, j - 1))
    }
}

/// Multiplies the state by the MDS matrix.
pub fn apply_mds(state: &mut [Fr; 3])
    ensures
        state_view(*final(state)) == mds_spec(state_view(*old(state))),
{
    let ghost s = state_view(*state);
    let mut new_state: [Fr; 3] = *state;
    fill_state(&mut new_state, &state[0]);
    for i in 0..T
        invariant
            s == state_view(*state),
            forall|k: int| 0 <= k < i ==> #[trigger] new_state[k]@ == mds_row_spec(s, k),
            forall|k: int| i <= k < 3 ==> #[trigger] new_state[k]@ == s[0],
    {
        let mut acc: Fr = new_state[i].mul_raw(&mds_entry(i, 0));
        proof {
            reveal_with_fuel(mds_row_prefix, 2);
            lemma_small_mod(mds_row_prefix(s, i as int, 1) % modulus(), modulus());
        }
        for j in 1..T
            invariant
                s == state_view(*state),
                0 <= i < 3,
                acc@ == mds_row_prefix(s, i as int, j as int) % modulus(),
        {
            mul_add_assign(&mut acc, &state[j], &mds_entry(i, j));
            proof {
                let p = modulus() as int;
                let x = mds_row_prefix(s, i as int, j as int) as int;
                let y = (s[j as int] * limbs_value(mds_entry_spec(i as int, j as int))) as int;
                lemma_add_mod_noop_right(y, x, p);
                assert(mds_row_prefix(s, i as int, j + 1) == x + y);
            }
        }
        proof {
            reveal_with_fuel(mds_row_prefix, 4);
        }
        new_state[i] = acc;
    }
    set_state(state, &new_state);
}


/// A full round: adds the round constants, applies the S-box to every
/// element, then the MDS matrix.
pub fn full_round(state: &mut [Fr; 3], rcs: &[[u64; 4]; 3])
    ensures
        state_view(*final(state)) == full_round_spec(state_view(*old(state)), *rcs),
{
    let ghost s = state_view(*state);
    for i in 0..T
        invariant
            forall|k: int| 0 <= k < i ==> #[trigger] state[k]@ == sbox_spec(
                (s[k] + limbs_value(rcs[k])) % modulus(),
            ),
            forall|k: int| i <= k < 3 ==> #[trigger] state[k]@ == s[k],
    {
        let mut word: Fr = state[i].add_raw(&rcs[i]);
        sbox_inplace(&mut word);
        state[i] = word;
    }
    apply_mds(state);
}

/// A partial round: adds the round constants, applies the S-box to the first
/// element only, then the MDS matrix.
pub fn partial_round(state: &mut [Fr; 3], rcs: &[[u64; 4]; 3])
    ensures
        state_view(*final(state)) == partial_round_spec(state_view(*old(state)), *rcs),
{
    let ghost s = state_view(*state);
    for i in 0..T
        invariant
            forall|k: int| 0 <= k < i ==> #[trigger] state[k]@ == (s[k] + limbs_value(rcs[k])) % modulus(),
            forall|k: int| i <= k < 3 ==> #[trigger] state[k]@ == s[k],
    {
        let word: Fr = state[i].add_raw(&rcs[i]);
        state[i] = word;
    }
    let mut first: Fr = state[0];
    sbox_inplace(&mut first);
    state[0] = first;
    apply_mds(state);
}

/// The Poseidon permutation: `FULL_ROUNDS / 2` full rounds, `PARTIAL_ROUNDS`
/// partial rounds, then `FULL_ROUNDS / 2` full rounds.
pub fn permute(state: &mut [Fr; 3])
    ensures
        state_view(*final(state)) == permutation_spec(state_view(*old(state))),
{
    let ghost s = state_view(*state);
    let r_f: usize = FULL_ROUNDS / 2;
    let r_p: usize = PARTIAL_ROUNDS;
    for i in 0..r_f
        invariant
            r_f == FULL_ROUNDS / 2,
            state_view(*state) == rounds_spec(s, i as nat),
    {
        full_round(state, &round_constants(i));
    }
    for i in r_f..r_f + r_p
        invariant
            r_f == FULL_ROUNDS / 2,
            r_p == PARTIAL_ROUNDS,
            state_view(*state) == rounds_spec(s, i as nat),
    {
        partial_round(state, &round_constants(i));
    }
    for i in r_f + r_p..FULL_ROUNDS + PARTIAL_ROUNDS
        invariant
            r_f == FULL_ROUNDS / 2,
            r_p == PARTIAL_ROUNDS,
            state_view(*state) == rounds_spec(s, i as nat),
    {
        full_round(state, &round_constants(i));
    }
}

} // verus!
