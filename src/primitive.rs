//! The 512-bit two's-complement primitive that this library builds on, bnum's
//! `I512`, reached through one small function per operation. Each takes and
//! returns the eight little-endian limbs that the library holds.
use vstd::prelude::*;
use crate::model::{abs, div_fits, in_i512_range, limbs_value, trunc_div, trunc_rem, wrap};
use crate::radix::{numeral_fits, signed_numeral_value, signed_text, supported_radix};
use bnum::types::{I512, U512};

verus! {

/// Relies on `From<i128> for I512`: the value is kept.
#[verifier::external_body]
pub(crate) fn i512_from_i128(x: i128) -> (r: [u64; 8])
    ensures
        limbs_value(r@) == x,
{
    *I512::from(x).to_bits().digits()
}

/// Relies on `From<u128> for I512`: the value is kept.
#[verifier::external_body]
pub(crate) fn i512_from_u128(x: u128) -> (r: [u64; 8])
    ensures
        limbs_value(r@) == x,
{
    *I512::from(x).to_bits().digits()
}

/// Relies on `PartialOrd::le` of `I512`: numeric order.
#[verifier::external_body]
pub(crate) fn i512_le(a: &[u64; 8], b: &[u64; 8]) -> (r: bool)
    ensures
        r == (limbs_value(a@) <= limbs_value(b@)),
{
    I512::from_bits(U512::from_digits(*a)) <= I512::from_bits(U512::from_digits(*b))
}

/// Relies on `I512::is_zero`.
#[verifier::external_body]
pub(crate) fn i512_is_zero(a: &[u64; 8]) -> (r: bool)
    ensures
        r == (limbs_value(a@) == 0),
{
    I512::from_bits(U512::from_digits(*a)).is_zero()
}

/// Relies on `I512::is_negative`.
#[verifier::external_body]
pub(crate) fn i512_is_negative(a: &[u64; 8]) -> (r: bool)
    ensures
        r == (limbs_value(a@) < 0),
{
    I512::from_bits(U512::from_digits(*a)).is_negative()
}

/// Relies on `I512::is_positive`.
#[verifier::external_body]
pub(crate) fn i512_is_positive(a: &[u64; 8]) -> (r: bool)
    ensures
        r == (limbs_value(a@) > 0),
{
    I512::from_bits(U512::from_digits(*a)).is_positive()
}

/// Relies on `I512::overflowing_neg`: the negation, wrapped.
#[verifier::external_body]
pub(crate) fn i512_overflowing_neg(a: &[u64; 8]) -> (r: [u64; 8])
    ensures
        limbs_value(r@) == wrap(-limbs_value(a@)),
{
    *I512::from_bits(U512::from_digits(*a)).overflowing_neg().0.to_bits().digits()
}

/// Relies on `I512::overflowing_add`: the sum, wrapped.
#[verifier::external_body]
pub(crate) fn i512_overflowing_add(a: &[u64; 8], b: &[u64; 8]) -> (r: [u64; 8])
    ensures
        limbs_value(r@) == wrap(limbs_value(a@) + limbs_value(b@)),
{
    let x = I512::from_bits(U512::from_digits(*a));
    *x.overflowing_add(I512::from_bits(U512::from_digits(*b))).0.to_bits().digits()
}

/// Relies on `I512::overflowing_sub`: the difference, wrapped.
#[verifier::external_body]
pub(crate) fn i512_overflowing_sub(a: &[u64; 8], b: &[u64; 8]) -> (r: [u64; 8])
    ensures
        limbs_value(r@) == wrap(limbs_value(a@) - limbs_value(b@)),
{
    let x = I512::from_bits(U512::from_digits(*a));
    *x.overflowing_sub(I512::from_bits(U512::from_digits(*b))).0.to_bits().digits()
}

/// Relies on `I512::wrapping_mul`: the product, wrapped.
#[verifier::external_body]
pub(crate) fn i512_wrapping_mul(a: &[u64; 8], b: &[u64; 8]) -> (r: [u64; 8])
    ensures
        limbs_value(r@) == wrap(limbs_value(a@) * limbs_value(b@)),
{
    let x = I512::from_bits(U512::from_digits(*a));
    *x.wrapping_mul(I512::from_bits(U512::from_digits(*b))).to_bits().digits()
}

/// Relies on `I512::wrapping_div`: the quotient rounded toward zero, wrapped;
/// it panics on a zero divisor.
#[verifier::external_body]
pub(crate) fn i512_wrapping_div(a: &[u64; 8], b: &[u64; 8]) -> (r: [u64; 8])
    requires
        limbs_value(b@) != 0,
    ensures
        limbs_value(r@) == wrap(trunc_div(limbs_value(a@), limbs_value(b@))),
{
    let x = I512::from_bits(U512::from_digits(*a));
    *x.wrapping_div(I512::from_bits(U512::from_digits(*b))).to_bits().digits()
}

/// Relies on `I512::wrapping_rem`: the remainder of the quotient rounded
/// toward zero, wrapped; it panics on a zero divisor.
#[verifier::external_body]
pub(crate) fn i512_wrapping_rem(a: &[u64; 8], b: &[u64; 8]) -> (r: [u64; 8])
    requires
        limbs_value(b@) != 0,
    ensures
        limbs_value(r@) == wrap(trunc_rem(limbs_value(a@), limbs_value(b@))),
{
    let x = I512::from_bits(U512::from_digits(*a));
    *x.wrapping_rem(I512::from_bits(U512::from_digits(*b))).to_bits().digits()
}

/// Relies on `I512::wrapping_abs`: the magnitude, wrapped (the minimum stays).
#[verifier::external_body]
pub(crate) fn i512_wrapping_abs(a: &[u64; 8]) -> (r: [u64; 8])
    ensures
        limbs_value(r@) == wrap(abs(limbs_value(a@))),
{
    *I512::from_bits(U512::from_digits(*a)).wrapping_abs().to_bits().digits()
}

/// Relies on `I512::wrapping_pow`: the power, wrapped.
#[verifier::external_body]
pub(crate) fn i512_wrapping_pow(a: &[u64; 8], exp: u32) -> (r: [u64; 8])
    ensures
        limbs_value(r@) == wrap(vstd::arithmetic::power::pow(limbs_value(a@), exp as nat)),
{
    *I512::from_bits(U512::from_digits(*a)).wrapping_pow(exp).to_bits().digits()
}

/// Relies on `I512::checked_add`: the exact sum where it fits.
#[verifier::external_body]
pub(crate) fn i512_checked_add(a: &[u64; 8], b: &[u64; 8]) -> (r: Option<[u64; 8]>)
    ensures
        r is Some <==> in_i512_range(limbs_value(a@) + limbs_value(b@)),
        r matches Some(x) ==> limbs_value(x@) == limbs_value(a@) + limbs_value(b@),
{
    let x = I512::from_bits(U512::from_digits(*a));
    x.checked_add(I512::from_bits(U512::from_digits(*b))).map(|v| *v.to_bits().digits())
}

/// Relies on `I512::checked_sub`: the exact difference where it fits.
#[verifier::external_body]
pub(crate) fn i512_checked_sub(a: &[u64; 8], b: &[u64; 8]) -> (r: Option<[u64; 8]>)
    ensures
        r is Some <==> in_i512_range(limbs_value(a@) - limbs_value(b@)),
        r matches Some(x) ==> limbs_value(x@) == limbs_value(a@) - limbs_value(b@),
{
    let x = I512::from_bits(U512::from_digits(*a));
    x.checked_sub(I512::from_bits(U512::from_digits(*b))).map(|v| *v.to_bits().digits())
}

/// Relies on `I512::checked_mul`: the exact product where it fits.
#[verifier::external_body]
pub(crate) fn i512_checked_mul(a: &[u64; 8], b: &[u64; 8]) -> (r: Option<[u64; 8]>)
    ensures
        r is Some <==> in_i512_range(limbs_value(a@) * limbs_value(b@)),
        r matches Some(x) ==> limbs_value(x@) == limbs_value(a@) * limbs_value(b@),
{
    let x = I512::from_bits(U512::from_digits(*a));
    x.checked_mul(I512::from_bits(U512::from_digits(*b))).map(|v| *v.to_bits().digits())
}

/// Relies on `I512::checked_div`: no quotient for a zero divisor or where the
/// quotient rounded toward zero does not fit.
#[verifier::external_body]
pub(crate) fn i512_checked_div(a: &[u64; 8], b: &[u64; 8]) -> (r: Option<[u64; 8]>)
    ensures
        r is Some <==> div_fits(limbs_value(a@), limbs_value(b@)),
        r matches Some(x) ==> limbs_value(x@) == trunc_div(limbs_value(a@), limbs_value(b@)),
{
    let x = I512::from_bits(U512::from_digits(*a));
    x.checked_div(I512::from_bits(U512::from_digits(*b))).map(|v| *v.to_bits().digits())
}

/// Relies on `I512::checked_rem`: no remainder for a zero divisor or where the
/// matching quotient overflows (the minimum divided by -1).
#[verifier::external_body]
pub(crate) fn i512_checked_rem(a: &[u64; 8], b: &[u64; 8]) -> (r: Option<[u64; 8]>)
    ensures
        r is Some <==> div_fits(limbs_value(a@), limbs_value(b@)),
        r matches Some(x) ==> limbs_value(x@) == trunc_rem(limbs_value(a@), limbs_value(b@)),
{
    let x = I512::from_bits(U512::from_digits(*a));
    x.checked_rem(I512::from_bits(U512::from_digits(*b))).map(|v| *v.to_bits().digits())
}

/// Relies on `I512::from_str_radix`: an optional sign and then digits of the
/// radix, letters of either case, whose value fits; in base 16 more than 128
/// digits are refused whatever their value.
#[verifier::external_body]
pub(crate) fn i512_from_str_radix(s: &str, radix: u32) -> (r: Option<[u64; 8]>)
    requires
        supported_radix(radix as nat),
    ensures
        r is Some <==> numeral_fits(s@, radix as nat),
        r matches Some(x) ==> limbs_value(x@) == signed_numeral_value(s@, radix as nat),
{
    I512::from_str_radix(s, radix).ok().map(|v| *v.to_bits().digits())
}

/// Relies on `I512::to_str_radix`: lowercase digits of the magnitude without
/// leading zeros, after a `-` when negative.
#[verifier::external_body]
pub(crate) fn i512_to_str_radix(a: &[u64; 8], radix: u32) -> (r: String)
    requires
        supported_radix(radix as nat),
    ensures
        r@ == signed_text(limbs_value(a@), radix as nat),
{
    I512::from_bits(U512::from_digits(*a)).to_str_radix(radix)
}

} // verus!
