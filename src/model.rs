//! The mathematical model of a 512-bit two's-complement integer held as
//! eight 64-bit limbs, least significant first.
use vstd::prelude::*;

verus! {

/// 2^64, the base of one limb.
pub open spec fn limb_base() -> int {
    18446744073709551616
}

/// 2^128.
pub open spec fn two_limbs_base() -> int {
    limb_base() * limb_base()
}

/// 2^511: one past the largest value.
pub open spec fn half_range() -> int {
    full_range() / 2
}

/// 2^512: the number of distinct values.
pub open spec fn full_range() -> int {
    limb_pow(8)
}

/// The smallest value, -2^511.
pub open spec fn i512_min() -> int {
    -half_range()
}

/// The largest value, 2^511 - 1.
pub open spec fn i512_max() -> int {
    half_range() - 1
}

pub open spec fn in_i512_range(x: int) -> bool {
    i512_min() <= x <= i512_max()
}

/// The unsigned number that the limbs spell, least significant limb first.
pub open spec fn limbs_nat(s: Seq<u64>) -> nat
    decreases s.len(),
{
    if s.len() == 0 {
        0
    } else {
        (s[0] as nat + limb_base() * limbs_nat(s.subrange(1, s.len() as int))) as nat
    }
}

/// Two's-complement reading of an unsigned 512-bit number.
pub open spec fn signed_of(u: nat) -> int {
    if u >= half_range() {
        u - full_range()
    } else {
        u as int
    }
}

/// The signed value of eight limbs.
pub open spec fn limbs_value(s: Seq<u64>) -> int {
    signed_of(limbs_nat(s))
}

/// The low 512 bits of `x`, read as a two's-complement value.
pub open spec fn wrap(x: int) -> int {
    (x + half_range()) % full_range() - half_range()
}

/// Quotient rounded toward zero.
pub open spec fn trunc_div(a: int, b: int) -> int
    recommends
        b != 0,
{
    let q = abs(a) / abs(b);
    if (a < 0) == (b < 0) {
        q
    } else {
        -q
    }
}

/// The quotient of `a` by `b` rounded toward zero exists and fits.
pub open spec fn div_fits(a: int, b: int) -> bool {
    b != 0 && in_i512_range(trunc_div(a, b))
}

/// Remainder of the quotient rounded toward zero; it takes the sign of `a`.
pub open spec fn trunc_rem(a: int, b: int) -> int
    recommends
        b != 0,
{
    a - b * trunc_div(a, b)
}

pub open spec fn abs(x: int) -> int {
    if x < 0 {
        -x
    } else {
        x
    }
}

/// 2^(64 n).
pub open spec fn limb_pow(n: nat) -> int
    decreases n,
{
    if n == 0 {
        1
    } else {
        limb_base() * limb_pow((n - 1) as nat)
    }
}

pub proof fn lemma_limbs_nat_bound(s: Seq<u64>)
    ensures
        limbs_nat(s) < limb_pow(s.len()),
    decreases s.len(),
{
    if s.len() > 0 {
        let rest = s.subrange(1, s.len() as int);
        lemma_limbs_nat_bound(rest);
        let p = limb_pow(rest.len());
        let r = limbs_nat(rest);
        assert(s[0] + limb_base() * r < limb_base() * p) by (nonlinear_arith)
            requires
                0 <= s[0] < limb_base(),
                r + 1 <= p,
                limb_base() > 0,
        {
            assert(limb_base() * r + limb_base() <= limb_base() * p);
        }
    }
}

pub proof fn lemma_limb_pow_positive(n: nat)
    ensures
        limb_pow(n) >= 1,
    decreases n,
{
    if n > 0 {
        lemma_limb_pow_positive((n - 1) as nat);
        assert(limb_base() * limb_pow((n - 1) as nat) >= 1) by (nonlinear_arith)
            requires
                limb_pow((n - 1) as nat) >= 1,
                limb_base() > 1,
        ;
    }
}

/// How 2^512 factors into limb powers, and how large half of it is.
pub proof fn lemma_range_facts()
    ensures
        full_range() == limb_base() * limb_pow(7),
        full_range() == two_limbs_base() * limb_pow(6),
        full_range() == 2 * half_range(),
        half_range() >= two_limbs_base(),
{
    lemma_limb_pow_positive(6);
    let p6 = limb_pow(6);
    assert(limb_pow(7) == limb_base() * p6);
    assert(limb_pow(8) == limb_base() * limb_pow(7));
    assert(full_range() == two_limbs_base() * p6) by (nonlinear_arith)
        requires
            full_range() == limb_base() * (limb_base() * p6),
            two_limbs_base() == limb_base() * limb_base(),
    ;
    lemma_limb_pow_positive(5);
    assert(p6 == limb_base() * limb_pow(5));
    assert(p6 >= limb_base()) by (nonlinear_arith)
        requires
            p6 == limb_base() * limb_pow(5),
            limb_pow(5) >= 1,
            limb_base() > 0,
    ;
    assert(full_range() % 2 == 0) by (nonlinear_arith)
        requires
            full_range() == two_limbs_base() * p6,
            two_limbs_base() == 2 * (two_limbs_base() / 2),
    ;
    assert(half_range() >= two_limbs_base()) by (nonlinear_arith)
        requires
            full_range() == two_limbs_base() * p6,
            half_range() == full_range() / 2,
            p6 >= limb_base(),
            two_limbs_base() > 0,
    ;
}

/// Eight limbs spell a number below 2^512, and their two's-complement value
/// lies in the 512-bit signed range.
pub proof fn lemma_limbs_value_in_range(s: Seq<u64>)
    requires
        s.len() == 8,
    ensures
        limbs_nat(s) < full_range(),
        in_i512_range(limbs_value(s)),
        limbs_nat(s) == limbs_value(s) + (if limbs_value(s) < 0 { full_range() } else { 0 }),
{
    lemma_limbs_nat_bound(s);
}

/// The low one and two limbs give the number modulo 2^64 and 2^128.
pub proof fn lemma_low_limbs(s: Seq<u64>)
    requires
        s.len() == 8,
    ensures
        (limbs_nat(s) as int) % limb_base() == s[0],
        (limbs_nat(s) as int) % two_limbs_base() == s[0] + limb_base() * s[1],
{
    let r1 = s.subrange(1, 8);
    let r2 = r1.subrange(1, 7);
    assert(r1[0] == s[1]);
    let n2 = limbs_nat(r2) as int;
    let n1 = limbs_nat(r1) as int;
    assert(n1 == s[1] + limb_base() * n2);
    let n = limbs_nat(s) as int;
    assert(n == s[0] + limb_base() * n1);
    vstd::arithmetic::div_mod::lemma_fundamental_div_mod_converse(n, limb_base(), n1 as int, s[0] as int);
    assert(n == (s[0] + limb_base() * s[1]) + two_limbs_base() * n2) by (nonlinear_arith)
        requires
            n == s[0] + limb_base() * n1,
            n1 == s[1] + limb_base() * n2,
            two_limbs_base() == limb_base() * limb_base(),
    ;
    assert(s[0] + limb_base() * s[1] < two_limbs_base()) by (nonlinear_arith)
        requires
            0 <= s[0] < limb_base(),
            0 <= s[1] < limb_base(),
            two_limbs_base() == limb_base() * limb_base(),
    {
        assert(limb_base() * s[1] <= limb_base() * (limb_base() - 1));
    }
    vstd::arithmetic::div_mod::lemma_fundamental_div_mod_converse(
        n,
        two_limbs_base(),
        n2 as int,
        s[0] + limb_base() * s[1],
    );
}

/// Reading the unsigned number modulo 2^64 or 2^128 agrees with the signed value.
pub proof fn lemma_value_mod(s: Seq<u64>)
    requires
        s.len() == 8,
    ensures
        (limbs_nat(s) as int) % limb_base() == limbs_value(s) % limb_base(),
        (limbs_nat(s) as int) % two_limbs_base() == limbs_value(s) % two_limbs_base(),
{
    lemma_limbs_value_in_range(s);
    let v = limbs_value(s);
    if v < 0 {
        lemma_range_facts();
        let m1 = limb_pow(7);
        let m2 = limb_pow(6);
        vstd::arithmetic::div_mod::lemma_mod_multiples_vanish(m1, v, limb_base());
        vstd::arithmetic::div_mod::lemma_mod_multiples_vanish(m2, v, two_limbs_base());
    }
}

} // verus!
