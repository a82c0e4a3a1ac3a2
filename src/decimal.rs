//! Construction from a fixed-point decimal, held as rust_decimal holds it: a
//! 96-bit signed mantissa and a power-of-ten scale.
use vstd::prelude::*;
use rust_decimal::prelude::ToPrimitive;
use rust_decimal::Decimal;
use crate::error::Error;
use crate::model::trunc_div;
use crate::value::BiggerInt;

verus! {

/// The largest mantissa magnitude, 2^96 - 1.
pub const MAX_MANTISSA: i128 = 79228162514264337593543950335;

/// The largest scale.
pub const MAX_SCALE: u32 = 28;

/// 10^n.
pub open spec fn pow10(n: nat) -> int
    decreases n,
{
    if n == 0 {
        1
    } else {
        10 * pow10((n - 1) as nat)
    }
}

/// A decimal number `mantissa / 10^scale`.
#[derive(Clone, Copy, Debug)]
pub struct DecimalParts {
    pub mantissa: i128,
    pub scale: u32,
}

impl DecimalParts {
    /// The mantissa and scale are within what the decimal type can hold.
    pub open spec fn wf(self) -> bool {
        -MAX_MANTISSA <= self.mantissa <= MAX_MANTISSA && self.scale <= MAX_SCALE
    }

    /// The integral part, rounded toward zero.
    pub open spec fn integral(self) -> int {
        trunc_div(self.mantissa as int, pow10(self.scale as nat))
    }

    /// The parts, where the decimal type can hold them.
    pub fn new(mantissa: i128, scale: u32) -> (r: Option<DecimalParts>)
        ensures
            r is Some <==> (-MAX_MANTISSA <= mantissa <= MAX_MANTISSA && scale <= MAX_SCALE),
            r matches Some(d) ==> d.mantissa == mantissa && d.scale == scale,
    {
        if -MAX_MANTISSA <= mantissa && mantissa <= MAX_MANTISSA && scale <= MAX_SCALE {
            Some(DecimalParts { mantissa, scale })
        } else {
            None
        }
    }
}

/// The display text of a decimal, as rust_decimal writes it.
pub uninterp spec fn decimal_display(mantissa: i128, scale: u32) -> Seq<char>;

/// Relies on `Decimal::from_i128_with_scale`, which panics outside the bounds
/// required here, and `ToPrimitive::to_i128` of `Decimal`, which always gives
/// the integral part rounded toward zero.
#[verifier::external_body]
fn decimal_to_i128(mantissa: i128, scale: u32) -> (r: Option<i128>)
    requires
        -MAX_MANTISSA <= mantissa <= MAX_MANTISSA,
        scale <= MAX_SCALE,
    ensures
        r == Some(trunc_div(mantissa as int, pow10(scale as nat)) as i128),
{
    Decimal::from_i128_with_scale(mantissa, scale).to_i128()
}

/// Relies on the `Display` impl of `Decimal`.
#[verifier::external_body]
fn decimal_to_string(mantissa: i128, scale: u32) -> (r: String)
    requires
        -MAX_MANTISSA <= mantissa <= MAX_MANTISSA,
        scale <= MAX_SCALE,
    ensures
        r@ == decimal_display(mantissa, scale),
{
    Decimal::from_i128_with_scale(mantissa, scale).to_string()
}

proof fn lemma_pow10_positive(n: nat)
    ensures
        pow10(n) >= 1,
    decreases n,
{
    if n > 0 {
        lemma_pow10_positive((n - 1) as nat);
    }
}

impl BiggerInt {
    /// The integral part of a decimal, rounded toward zero. Every decimal's
    /// integral part fits in 128 signed bits, so this always succeeds.
    pub fn try_from_decimal(d: DecimalParts) -> (r: Result<BiggerInt, Error>)
        requires
            d.wf(),
        ensures
            r is Ok,
            r matches Ok(v) ==> v@ == d.integral(),
    {
        proof {
            lemma_pow10_positive(d.scale as nat);
            let p = pow10(d.scale as nat);
            let m = d.mantissa as int;
            let q = crate::model::abs(m) / p;
            assert(0 <= q <= crate::model::abs(m)) by {
                vstd::arithmetic::div_mod::lemma_div_is_ordered_by_denominator(
                    crate::model::abs(m),
                    1,
                    p,
                );
            }
        }
        match decimal_to_i128(d.mantissa, d.scale) {
            Some(v) => Ok(BiggerInt::from_i128(v)),
            None => Err(
                Error::TryFrom(
                    decimal_to_string(d.mantissa, d.scale),
                    String::from_str("BiggerInt"),
                ),
            ),
        }
    }
}

} // verus!
