//! Wrapping and checked arithmetic.
use vstd::prelude::*;
use crate::model::{
    abs, div_fits, full_range, half_range, i512_max, i512_min, in_i512_range, lemma_range_facts,
    trunc_div, trunc_rem, wrap,
};
use crate::primitive::{
    i512_checked_add, i512_checked_div, i512_checked_mul, i512_checked_rem, i512_checked_sub,
    i512_overflowing_add, i512_overflowing_neg, i512_overflowing_sub, i512_wrapping_abs,
    i512_wrapping_div, i512_wrapping_mul, i512_wrapping_pow, i512_wrapping_rem,
};
use crate::value::BiggerInt;

verus! {

impl BiggerInt {
    /// Two's-complement magnitude: the minimum maps to itself.
    pub fn abs(&self) -> (r: Self)
        ensures
            r@ == wrap(abs(self@)),
    {
        BiggerInt { limbs: i512_wrapping_abs(&self.limbs) }
    }

    /// Integer power, wrapped to 512 bits.
    pub fn pow(&self, exp: u32) -> (r: Self)
        ensures
            r@ == wrap(vstd::arithmetic::power::pow(self@, exp as nat)),
    {
        BiggerInt { limbs: i512_wrapping_pow(&self.limbs, exp) }
    }

    pub fn checked_add(self, rhs: Self) -> (r: Option<Self>)
        ensures
            r is Some <==> in_i512_range(self@ + rhs@),
            r matches Some(v) ==> v@ == self@ + rhs@,
    {
        match i512_checked_add(&self.limbs, &rhs.limbs) {
            Some(l) => Some(BiggerInt { limbs: l }),
            None => None,
        }
    }

    pub fn checked_sub(self, rhs: Self) -> (r: Option<Self>)
        ensures
            r is Some <==> in_i512_range(self@ - rhs@),
            r matches Some(v) ==> v@ == self@ - rhs@,
    {
        match i512_checked_sub(&self.limbs, &rhs.limbs) {
            Some(l) => Some(BiggerInt { limbs: l }),
            None => None,
        }
    }

    pub fn checked_mul(self, rhs: Self) -> (r: Option<Self>)
        ensures
            r is Some <==> in_i512_range(self@ * rhs@),
            r matches Some(v) ==> v@ == self@ * rhs@,
    {
        match i512_checked_mul(&self.limbs, &rhs.limbs) {
            Some(l) => Some(BiggerInt { limbs: l }),
            None => None,
        }
    }

    /// Quotient rounded toward zero; none for a zero divisor or for the
    /// minimum divided by -1.
    pub fn checked_div(self, rhs: Self) -> (r: Option<Self>)
        ensures
            r is Some <==> div_fits(self@, rhs@),
            r matches Some(v) ==> v@ == trunc_div(self@, rhs@),
    {
        match i512_checked_div(&self.limbs, &rhs.limbs) {
            Some(l) => Some(BiggerInt { limbs: l }),
            None => None,
        }
    }

    /// Remainder with the sign of the dividend; none where `checked_div` gives none.
    pub fn checked_rem(self, rhs: Self) -> (r: Option<Self>)
        ensures
            r is Some <==> div_fits(self@, rhs@),
            r matches Some(v) ==> v@ == trunc_rem(self@, rhs@),
    {
        match i512_checked_rem(&self.limbs, &rhs.limbs) {
            Some(l) => Some(BiggerInt { limbs: l }),
            None => None,
        }
    }
}

impl core::ops::Neg for BiggerInt {
    type Output = BiggerInt;

    /// Negation, wrapped: the minimum maps to itself.
    fn neg(self) -> (r: BiggerInt)
        ensures
            r@ == wrap(-self@),
    {
        BiggerInt { limbs: i512_overflowing_neg(&self.limbs) }
    }
}

impl vstd::std_specs::ops::NegSpecImpl for BiggerInt {
    open spec fn obeys_neg_spec() -> bool {
        false
    }

    open spec fn neg_req(self) -> bool {
        true
    }

    open spec fn neg_spec(self) -> BiggerInt {
        arbitrary()
    }
}

impl core::ops::Add<BiggerInt> for BiggerInt {
    type Output = BiggerInt;

    fn add(self, rhs: BiggerInt) -> (r: BiggerInt)
        ensures
            r@ == wrap(self@ + rhs@),
    {
        BiggerInt { limbs: i512_overflowing_add(&self.limbs, &rhs.limbs) }
    }
}

impl vstd::std_specs::ops::AddSpecImpl<BiggerInt> for BiggerInt {
    open spec fn obeys_add_spec() -> bool {
        false
    }

    open spec fn add_req(self, rhs: BiggerInt) -> bool {
        true
    }

    open spec fn add_spec(self, rhs: BiggerInt) -> BiggerInt {
        arbitrary()
    }
}

impl<'a, 'b> core::ops::Add<&'b BiggerInt> for &'a BiggerInt {
    type Output = BiggerInt;

    fn add(self, rhs: &'b BiggerInt) -> (r: BiggerInt)
        ensures
            r@ == wrap(self@ + rhs@),
    {
        BiggerInt { limbs: i512_overflowing_add(&self.limbs, &rhs.limbs) }
    }
}

impl<'a, 'b> vstd::std_specs::ops::AddSpecImpl<&'b BiggerInt> for &'a BiggerInt {
    open spec fn obeys_add_spec() -> bool {
        false
    }

    open spec fn add_req(self, rhs: &'b BiggerInt) -> bool {
        true
    }

    open spec fn add_spec(self, rhs: &'b BiggerInt) -> BiggerInt {
        arbitrary()
    }
}

impl core::ops::Sub<BiggerInt> for BiggerInt {
    type Output = BiggerInt;

    fn sub(self, rhs: BiggerInt) -> (r: BiggerInt)
        ensures
            r@ == wrap(self@ - rhs@),
    {
        BiggerInt { limbs: i512_overflowing_sub(&self.limbs, &rhs.limbs) }
    }
}

impl vstd::std_specs::ops::SubSpecImpl<BiggerInt> for BiggerInt {
    open spec fn obeys_sub_spec() -> bool {
        false
    }

    open spec fn sub_req(self, rhs: BiggerInt) -> bool {
        true
    }

    open spec fn sub_spec(self, rhs: BiggerInt) -> BiggerInt {
        arbitrary()
    }
}

impl<'a, 'b> core::ops::Sub<&'b BiggerInt> for &'a BiggerInt {
    type Output = BiggerInt;

    fn sub(self, rhs: &'b BiggerInt) -> (r: BiggerInt)
        ensures
            r@ == wrap(self@ - rhs@),
    {
        BiggerInt { limbs: i512_overflowing_sub(&self.limbs, &rhs.limbs) }
    }
}

impl<'a, 'b> vstd::std_specs::ops::SubSpecImpl<&'b BiggerInt> for &'a BiggerInt {
    open spec fn obeys_sub_spec() -> bool {
        false
    }

    open spec fn sub_req(self, rhs: &'b BiggerInt) -> bool {
        true
    }

    open spec fn sub_spec(self, rhs: &'b BiggerInt) -> BiggerInt {
        arbitrary()
    }
}

impl core::ops::Mul<BiggerInt> for BiggerInt {
    type Output = BiggerInt;

    fn mul(self, rhs: BiggerInt) -> (r: BiggerInt)
        ensures
            r@ == wrap(self@ * rhs@),
    {
        BiggerInt { limbs: i512_wrapping_mul(&self.limbs, &rhs.limbs) }
    }
}

impl vstd::std_specs::ops::MulSpecImpl<BiggerInt> for BiggerInt {
    open spec fn obeys_mul_spec() -> bool {
        false
    }

    open spec fn mul_req(self, rhs: BiggerInt) -> bool {
        true
    }

    open spec fn mul_spec(self, rhs: BiggerInt) -> BiggerInt {
        arbitrary()
    }
}

impl<'a, 'b> core::ops::Mul<&'b BiggerInt> for &'a BiggerInt {
    type Output = BiggerInt;

    fn mul(self, rhs: &'b BiggerInt) -> (r: BiggerInt)
        ensures
            r@ == wrap(self@ * rhs@),
    {
        BiggerInt { limbs: i512_wrapping_mul(&self.limbs, &rhs.limbs) }
    }
}

impl<'a, 'b> vstd::std_specs::ops::MulSpecImpl<&'b BiggerInt> for &'a BiggerInt {
    open spec fn obeys_mul_spec() -> bool {
        false
    }

    open spec fn mul_req(self, rhs: &'b BiggerInt) -> bool {
        true
    }

    open spec fn mul_spec(self, rhs: &'b BiggerInt) -> BiggerInt {
        arbitrary()
    }
}

impl core::ops::Div<BiggerInt> for BiggerInt {
    type Output = BiggerInt;

    fn div(self, rhs: BiggerInt) -> (r: BiggerInt)
        ensures
            r@ == wrap(trunc_div(self@, rhs@)),
    {
        BiggerInt { limbs: i512_wrapping_div(&self.limbs, &rhs.limbs) }
    }
}

impl vstd::std_specs::ops::DivSpecImpl<BiggerInt> for BiggerInt {
    open spec fn obeys_div_spec() -> bool {
        false
    }

    open spec fn div_req(self, rhs: BiggerInt) -> bool {
        rhs@ != 0
    }

    open spec fn div_spec(self, rhs: BiggerInt) -> BiggerInt {
        arbitrary()
    }
}

impl<'a, 'b> core::ops::Div<&'b BiggerInt> for &'a BiggerInt {
    type Output = BiggerInt;

    fn div(self, rhs: &'b BiggerInt) -> (r: BiggerInt)
        ensures
            r@ == wrap(trunc_div(self@, rhs@)),
    {
        BiggerInt { limbs: i512_wrapping_div(&self.limbs, &rhs.limbs) }
    }
}

impl<'a, 'b> vstd::std_specs::ops::DivSpecImpl<&'b BiggerInt> for &'a BiggerInt {
    open spec fn obeys_div_spec() -> bool {
        false
    }

    open spec fn div_req(self, rhs: &'b BiggerInt) -> bool {
        rhs@ != 0
    }

    open spec fn div_spec(self, rhs: &'b BiggerInt) -> BiggerInt {
        arbitrary()
    }
}

impl core::ops::Rem<BiggerInt> for BiggerInt {
    type Output = BiggerInt;

    fn rem(self, rhs: BiggerInt) -> (r: BiggerInt)
        ensures
            r@ == wrap(trunc_rem(self@, rhs@)),
    {
        BiggerInt { limbs: i512_wrapping_rem(&self.limbs, &rhs.limbs) }
    }
}

impl vstd::std_specs::ops::RemSpecImpl<BiggerInt> for BiggerInt {
    open spec fn obeys_rem_spec() -> bool {
        false
    }

    open spec fn rem_req(self, rhs: BiggerInt) -> bool {
        rhs@ != 0
    }

    open spec fn rem_spec(self, rhs: BiggerInt) -> BiggerInt {
        arbitrary()
    }
}

/// The running sum of the values, wrapped at every step, starting from zero.
pub open spec fn wrapped_sum(s: Seq<BiggerInt>) -> int
    decreases s.len(),
{
    if s.len() == 0 {
        0
    } else {
        wrap(wrapped_sum(s.drop_last()) + s.last()@)
    }
}

/// The running product of the values, wrapped at every step, starting from one.
pub open spec fn wrapped_product(s: Seq<BiggerInt>) -> int
    decreases s.len(),
{
    if s.len() == 0 {
        1
    } else {
        wrap(wrapped_product(s.drop_last()) * s.last()@)
    }
}

impl BiggerInt {
    /// Folds the values with wrapping `+`, from zero.
    pub fn sum(items: &[BiggerInt]) -> (r: BiggerInt)
        ensures
            r@ == wrapped_sum(items@),
    {
        let mut acc = BiggerInt::zero();
        let mut i: usize = 0;
        while i < items.len()
            invariant
                i <= items@.len(),
                acc@ == wrapped_sum(items@.subrange(0, i as int)),
            decreases items@.len() - i,
        {
            assert(items@.subrange(0, i + 1).drop_last() =~= items@.subrange(0, i as int));
            acc = core::ops::Add::add(acc, items[i]);
            i = i + 1;
        }
        assert(items@.subrange(0, i as int) =~= items@);
        acc
    }

    /// Folds the values with wrapping `*`, from one.
    pub fn product(items: &[BiggerInt]) -> (r: BiggerInt)
        ensures
            r@ == wrapped_product(items@),
    {
        let mut acc = BiggerInt::one();
        let mut i: usize = 0;
        while i < items.len()
            invariant
                i <= items@.len(),
                acc@ == wrapped_product(items@.subrange(0, i as int)),
            decreases items@.len() - i,
        {
            assert(items@.subrange(0, i + 1).drop_last() =~= items@.subrange(0, i as int));
            acc = core::ops::Mul::mul(acc, items[i]);
            i = i + 1;
        }
        assert(items@.subrange(0, i as int) =~= items@);
        acc
    }
}

/// The sum of no values is zero and their product is one.
pub proof fn lemma_empty_fold()
    ensures
        wrapped_sum(Seq::<BiggerInt>::empty()) == 0,
        wrapped_product(Seq::<BiggerInt>::empty()) == 1,
{
}

/// Wrapping keeps the low 512 bits: the result is in range, differs from the
/// exact value by a multiple of 2^512, and is the exact value when that fits.
pub proof fn lemma_wrap_is_twos_complement(x: int)
    ensures
        in_i512_range(wrap(x)),
        (x - wrap(x)) % full_range() == 0,
        wrap(x) == x <==> in_i512_range(x),
{
    lemma_range_facts();
    let f = full_range();
    let h = half_range();
    let m = (x + h) % f;
    vstd::arithmetic::div_mod::lemma_fundamental_div_mod(x + h, f);
    let q = (x + h) / f;
    assert(x - wrap(x) == q * f);
    vstd::arithmetic::div_mod::lemma_mod_multiples_basic(q, f);
    if in_i512_range(x) {
        vstd::arithmetic::div_mod::lemma_small_mod((x + h) as nat, f as nat);
    }
}

/// The largest value plus one wraps to the smallest, and the smallest minus
/// one wraps to the largest.
pub proof fn lemma_wrap_at_ends()
    ensures
        wrap(i512_max() + 1) == i512_min(),
        wrap(i512_min() - 1) == i512_max(),
{
    lemma_range_facts();
    let f = full_range();
    vstd::arithmetic::div_mod::lemma_mod_self_0(f);
    vstd::arithmetic::div_mod::lemma_fundamental_div_mod_converse(-1, f, -1, f - 1);
    assert(i512_min() - 1 + half_range() == -1);
}

/// A checked operation gives nothing exactly where its wrapping counterpart
/// would wrap: for every exact result `x`, it fits iff wrapping leaves it alone.
pub proof fn lemma_checked_fails_iff_wraps(a: BiggerInt, b: BiggerInt)
    ensures
        in_i512_range(a@ + b@) <==> wrap(a@ + b@) == a@ + b@,
        in_i512_range(a@ - b@) <==> wrap(a@ - b@) == a@ - b@,
        in_i512_range(a@ * b@) <==> wrap(a@ * b@) == a@ * b@,
        b@ != 0 ==> (div_fits(a@, b@) <==> wrap(trunc_div(a@, b@)) == trunc_div(a@, b@)),
{
    lemma_wrap_is_twos_complement(a@ + b@);
    lemma_wrap_is_twos_complement(a@ - b@);
    lemma_wrap_is_twos_complement(a@ * b@);
    lemma_wrap_is_twos_complement(trunc_div(a@, b@));
}

} // verus!
