//! The value type, its constants, sign tests, order and bounds-checked
//! narrowing to the native integer widths.
use vstd::prelude::*;
use crate::model::{
    in_i512_range, lemma_limbs_value_in_range, lemma_low_limbs, lemma_value_mod, limb_base,
    limbs_value, two_limbs_base,
};
use crate::primitive::{
    i512_from_i128, i512_from_u128, i512_is_negative, i512_is_positive, i512_is_zero, i512_le,
};

verus! {

/// `v` as a `i8` where it lies in that type's range, else nothing.
pub open spec fn narrow_i8(v: int) -> Option<i8> {
    if i8::MIN <= v <= i8::MAX {
        Some(v as i8)
    } else {
        None
    }
}

/// `v` as a `i16` where it lies in that type's range, else nothing.
pub open spec fn narrow_i16(v: int) -> Option<i16> {
    if i16::MIN <= v <= i16::MAX {
        Some(v as i16)
    } else {
        None
    }
}

/// `v` as a `i32` where it lies in that type's range, else nothing.
pub open spec fn narrow_i32(v: int) -> Option<i32> {
    if i32::MIN <= v <= i32::MAX {
        Some(v as i32)
    } else {
        None
    }
}

/// `v` as a `i64` where it lies in that type's range, else nothing.
pub open spec fn narrow_i64(v: int) -> Option<i64> {
    if i64::MIN <= v <= i64::MAX {
        Some(v as i64)
    } else {
        None
    }
}

/// `v` as a `i128` where it lies in that type's range, else nothing.
pub open spec fn narrow_i128(v: int) -> Option<i128> {
    if i128::MIN <= v <= i128::MAX {
        Some(v as i128)
    } else {
        None
    }
}

/// `v` as a `u8` where it lies in that type's range, else nothing.
pub open spec fn narrow_u8(v: int) -> Option<u8> {
    if 0 <= v <= u8::MAX {
        Some(v as u8)
    } else {
        None
    }
}

/// `v` as a `u16` where it lies in that type's range, else nothing.
pub open spec fn narrow_u16(v: int) -> Option<u16> {
    if 0 <= v <= u16::MAX {
        Some(v as u16)
    } else {
        None
    }
}

/// `v` as a `u32` where it lies in that type's range, else nothing.
pub open spec fn narrow_u32(v: int) -> Option<u32> {
    if 0 <= v <= u32::MAX {
        Some(v as u32)
    } else {
        None
    }
}

/// `v` as a `u64` where it lies in that type's range, else nothing.
pub open spec fn narrow_u64(v: int) -> Option<u64> {
    if 0 <= v <= u64::MAX {
        Some(v as u64)
    } else {
        None
    }
}

/// `v` as a `u128` where it lies in that type's range, else nothing.
pub open spec fn narrow_u128(v: int) -> Option<u128> {
    if 0 <= v <= u128::MAX {
        Some(v as u128)
    } else {
        None
    }
}

/// `v` as a `usize` where it lies in that type's range, else nothing.
pub open spec fn narrow_usize(v: int) -> Option<usize> {
    if 0 <= v <= usize::MAX {
        Some(v as usize)
    } else {
        None
    }
}

/// A 512-bit two's-complement integer.
///
/// It is held as eight 64-bit limbs, least significant first; every limb
/// pattern is a valid value. Equality is equality of the limbs, which is
/// equality of the values.
#[derive(Clone, Copy, Debug, Eq, Hash)]
pub struct BiggerInt {
    pub limbs: [u64; 8],
}

impl View for BiggerInt {
    type V = int;

    /// The signed number that the value stands for.
    open spec fn view(&self) -> int {
        limbs_value(self.limbs@)
    }
}

impl PartialEq for BiggerInt {
    fn eq(&self, o: &BiggerInt) -> (r: bool) {
        let r = self.limbs[0] == o.limbs[0] && self.limbs[1] == o.limbs[1] && self.limbs[2]
            == o.limbs[2] && self.limbs[3] == o.limbs[3] && self.limbs[4] == o.limbs[4]
            && self.limbs[5] == o.limbs[5] && self.limbs[6] == o.limbs[6] && self.limbs[7]
            == o.limbs[7];
        if r {
            assert(self.limbs@ =~= o.limbs@);
        }
        r
    }
}

impl vstd::std_specs::cmp::PartialEqSpecImpl for BiggerInt {
    open spec fn obeys_eq_spec() -> bool {
        true
    }

    open spec fn eq_spec(&self, o: &BiggerInt) -> bool {
        self.limbs@ == o.limbs@
    }
}

impl Default for BiggerInt {
    fn default() -> (r: Self)
        ensures
            r@ == 0,
    {
        BiggerInt::zero()
    }
}

impl BiggerInt {
    /// Every value lies in the 512-bit signed range.
    pub proof fn lemma_in_range(self)
        ensures
            in_i512_range(self@),
    {
        lemma_limbs_value_in_range(self.limbs@);
    }

    pub fn zero() -> (r: Self)
        ensures
            r@ == 0,
    {
        BiggerInt { limbs: i512_from_i128(0) }
    }

    pub fn one() -> (r: Self)
        ensures
            r@ == 1,
    {
        BiggerInt { limbs: i512_from_i128(1) }
    }

    pub fn from_i128(v: i128) -> (r: Self)
        ensures
            r@ == v,
    {
        BiggerInt { limbs: i512_from_i128(v) }
    }

    pub fn from_u128(v: u128) -> (r: Self)
        ensures
            r@ == v,
    {
        BiggerInt { limbs: i512_from_u128(v) }
    }

    pub fn is_zero(&self) -> (r: bool)
        ensures
            r == (self@ == 0),
    {
        i512_is_zero(&self.limbs)
    }

    pub fn is_negative(&self) -> (r: bool)
        ensures
            r == (self@ < 0),
    {
        i512_is_negative(&self.limbs)
    }

    pub fn is_positive(&self) -> (r: bool)
        ensures
            r == (self@ > 0),
    {
        i512_is_positive(&self.limbs)
    }

    pub fn is_zero_or_positive(&self) -> (r: bool)
        ensures
            r == (self@ >= 0),
    {
        self.is_zero() || self.is_positive()
    }

    pub fn is_zero_or_negative(&self) -> (r: bool)
        ensures
            r == (self@ <= 0),
    {
        self.is_zero() || self.is_negative()
    }

    /// Numeric comparison.
    pub fn cmp(&self, other: Self) -> (r: core::cmp::Ordering)
        ensures
            (r == core::cmp::Ordering::Less) == (self@ < other@),
            (r == core::cmp::Ordering::Equal) == (self@ == other@),
            (r == core::cmp::Ordering::Greater) == (self@ > other@),
    {
        if !i512_le(&self.limbs, &other.limbs) {
            core::cmp::Ordering::Greater
        } else if i512_le(&other.limbs, &self.limbs) {
            core::cmp::Ordering::Equal
        } else {
            core::cmp::Ordering::Less
        }
    }

    /// Numeric equality.
    pub fn eq(&self, other: &Self) -> (r: bool)
        ensures
            r == (self@ == other@),
    {
        i512_le(&self.limbs, &other.limbs) && i512_le(&other.limbs, &self.limbs)
    }

    /// Whether the value lies between two 128-bit signed bounds.
    fn fits_between(&self, lo: i128, hi: i128) -> (r: bool)
        ensures
            r == (lo <= self@ <= hi),
    {
        let l = i512_from_i128(lo);
        let h = i512_from_i128(hi);
        i512_le(&self.limbs, &h) && i512_le(&l, &self.limbs)
    }

    /// Whether the value lies between zero and a 128-bit unsigned bound.
    fn fits_unsigned(&self, hi: u128) -> (r: bool)
        ensures
            r == (0 <= self@ <= hi),
    {
        let h = i512_from_u128(hi);
        !i512_is_negative(&self.limbs) && i512_le(&self.limbs, &h)
    }

    /// The value modulo 2^64, from the lowest limb.
    fn low_u64(&self) -> (r: u64)
        ensures
            r == self@ % limb_base(),
    {
        proof {
            lemma_low_limbs(self.limbs@);
            lemma_value_mod(self.limbs@);
        }
        self.limbs[0]
    }

    /// The value modulo 2^128, from the two lowest limbs.
    fn low_u128(&self) -> (r: u128)
        ensures
            r == self@ % two_limbs_base(),
    {
        proof {
            lemma_low_limbs(self.limbs@);
            lemma_value_mod(self.limbs@);
        }
        let lo = self.limbs[0];
        let hi = self.limbs[1];
        assert(hi as int * 18446744073709551616 <= 340282366920938463463374607431768211455 - lo)
            by (nonlinear_arith)
            requires
                hi <= 18446744073709551615u64,
                lo <= 18446744073709551615u64,
        ;
        lo as u128 + hi as u128 * 18446744073709551616u128
    }

    pub fn to_i8(self) -> (r: Option<i8>)
        ensures
            r == narrow_i8(self@),
    {
        if self.fits_between(i8::MIN as i128, i8::MAX as i128) {
            let low = self.low_u64();
            if low <= 127 {
                Some(low as i8)
            } else {
                Some((low - 18446744073709551488u64) as i8 + i8::MIN)
            }
        } else {
            None
        }
    }

    pub fn to_i16(self) -> (r: Option<i16>)
        ensures
            r == narrow_i16(self@),
    {
        if self.fits_between(i16::MIN as i128, i16::MAX as i128) {
            let low = self.low_u64();
            if low <= 32767 {
                Some(low as i16)
            } else {
                Some((low - 18446744073709518848u64) as i16 + i16::MIN)
            }
        } else {
            None
        }
    }

    pub fn to_i32(self) -> (r: Option<i32>)
        ensures
            r == narrow_i32(self@),
    {
        if self.fits_between(i32::MIN as i128, i32::MAX as i128) {
            let low = self.low_u64();
            if low <= 2147483647 {
                Some(low as i32)
            } else {
                Some((low - 18446744071562067968u64) as i32 + i32::MIN)
            }
        } else {
            None
        }
    }

    pub fn to_i64(self) -> (r: Option<i64>)
        ensures
            r == narrow_i64(self@),
    {
        if self.fits_between(i64::MIN as i128, i64::MAX as i128) {
            let low = self.low_u64();
            if low <= 9223372036854775807 {
                Some(low as i64)
            } else {
                Some((low - 9223372036854775808u64) as i64 + i64::MIN)
            }
        } else {
            None
        }
    }

    pub fn to_i128(self) -> (r: Option<i128>)
        ensures
            r == narrow_i128(self@),
    {
        if self.fits_between(i128::MIN, i128::MAX) {
            let low = self.low_u128();
            proof {
                let t = two_limbs_base();
                assert(t == 340282366920938463463374607431768211455 + 1);
                if self@ < 0 {
                    vstd::arithmetic::div_mod::lemma_fundamental_div_mod_converse(self@, t, -1, self@ + t);
                } else {
                    vstd::arithmetic::div_mod::lemma_small_mod(self@ as nat, t as nat);
                }
            }
            if low <= 170141183460469231731687303715884105727 {
                Some(low as i128)
            } else {
                Some((low - 170141183460469231731687303715884105728u128) as i128 + i128::MIN)
            }
        } else {
            None
        }
    }

    pub fn to_u8(self) -> (r: Option<u8>)
        ensures
            r == narrow_u8(self@),
    {
        if self.fits_unsigned(u8::MAX as u128) {
            Some(self.low_u64() as u8)
        } else {
            None
        }
    }

    pub fn to_u16(self) -> (r: Option<u16>)
        ensures
            r == narrow_u16(self@),
    {
        if self.fits_unsigned(u16::MAX as u128) {
            Some(self.low_u64() as u16)
        } else {
            None
        }
    }

    pub fn to_u32(self) -> (r: Option<u32>)
        ensures
            r == narrow_u32(self@),
    {
        if self.fits_unsigned(u32::MAX as u128) {
            Some(self.low_u64() as u32)
        } else {
            None
        }
    }

    pub fn to_u64(self) -> (r: Option<u64>)
        ensures
            r == narrow_u64(self@),
    {
        if self.fits_unsigned(u64::MAX as u128) {
            Some(self.low_u64())
        } else {
            None
        }
    }

    pub fn to_u128(self) -> (r: Option<u128>)
        ensures
            r == narrow_u128(self@),
    {
        if self.fits_unsigned(u128::MAX) {
            proof {
                let t = two_limbs_base();
                assert(t == 340282366920938463463374607431768211455 + 1);
                vstd::arithmetic::div_mod::lemma_small_mod(self@ as nat, t as nat);
            }
            Some(self.low_u128())
        } else {
            None
        }
    }

    pub fn to_usize(self) -> (r: Option<usize>)
        ensures
            r == narrow_usize(self@),
    {
        if self.fits_unsigned(usize::MAX as u128) {
            Some(self.low_u64() as usize)
        } else {
            None
        }
    }
}

/// Widening a native integer and narrowing it back to the same width gives
/// the same integer.
pub proof fn lemma_widen_then_narrow(n_i8: i8, n_i16: i16, n_i32: i32, n_i64: i64, n_i128: i128, n_u8: u8, n_u16: u16, n_u32: u32, n_u64: u64, n_u128: u128, n_usize: usize)
    ensures
        narrow_i8(n_i8 as int) == Some(n_i8),
        narrow_i16(n_i16 as int) == Some(n_i16),
        narrow_i32(n_i32 as int) == Some(n_i32),
        narrow_i64(n_i64 as int) == Some(n_i64),
        narrow_i128(n_i128 as int) == Some(n_i128),
        narrow_u8(n_u8 as int) == Some(n_u8),
        narrow_u16(n_u16 as int) == Some(n_u16),
        narrow_u32(n_u32 as int) == Some(n_u32),
        narrow_u64(n_u64 as int) == Some(n_u64),
        narrow_u128(n_u128 as int) == Some(n_u128),
        narrow_usize(n_usize as int) == Some(n_usize),
{
}

/// For each native width, one past either end of its range gives nothing
/// and each end gives itself.
pub proof fn lemma_narrow_boundaries()
    ensures
        narrow_i8(i8::MIN as int - 1) is None,
        narrow_i8(i8::MAX as int + 1) is None,
        narrow_i8(i8::MIN as int) == Some(i8::MIN as i8),
        narrow_i8(i8::MAX as int) == Some(i8::MAX),
        narrow_i16(i16::MIN as int - 1) is None,
        narrow_i16(i16::MAX as int + 1) is None,
        narrow_i16(i16::MIN as int) == Some(i16::MIN as i16),
        narrow_i16(i16::MAX as int) == Some(i16::MAX),
        narrow_i32(i32::MIN as int - 1) is None,
        narrow_i32(i32::MAX as int + 1) is None,
        narrow_i32(i32::MIN as int) == Some(i32::MIN as i32),
        narrow_i32(i32::MAX as int) == Some(i32::MAX),
        narrow_i64(i64::MIN as int - 1) is None,
        narrow_i64(i64::MAX as int + 1) is None,
        narrow_i64(i64::MIN as int) == Some(i64::MIN as i64),
        narrow_i64(i64::MAX as int) == Some(i64::MAX),
        narrow_i128(i128::MIN as int - 1) is None,
        narrow_i128(i128::MAX as int + 1) is None,
        narrow_i128(i128::MIN as int) == Some(i128::MIN as i128),
        narrow_i128(i128::MAX as int) == Some(i128::MAX),
        narrow_u8(0 as int - 1) is None,
        narrow_u8(u8::MAX as int + 1) is None,
        narrow_u8(0 as int) == Some(0 as u8),
        narrow_u8(u8::MAX as int) == Some(u8::MAX),
        narrow_u16(0 as int - 1) is None,
        narrow_u16(u16::MAX as int + 1) is None,
        narrow_u16(0 as int) == Some(0 as u16),
        narrow_u16(u16::MAX as int) == Some(u16::MAX),
        narrow_u32(0 as int - 1) is None,
        narrow_u32(u32::MAX as int + 1) is None,
        narrow_u32(0 as int) == Some(0 as u32),
        narrow_u32(u32::MAX as int) == Some(u32::MAX),
        narrow_u64(0 as int - 1) is None,
        narrow_u64(u64::MAX as int + 1) is None,
        narrow_u64(0 as int) == Some(0 as u64),
        narrow_u64(u64::MAX as int) == Some(u64::MAX),
        narrow_u128(0 as int - 1) is None,
        narrow_u128(u128::MAX as int + 1) is None,
        narrow_u128(0 as int) == Some(0 as u128),
        narrow_u128(u128::MAX as int) == Some(u128::MAX),
        narrow_usize(0 as int - 1) is None,
        narrow_usize(usize::MAX as int + 1) is None,
        narrow_usize(0 as int) == Some(0 as usize),
        narrow_usize(usize::MAX as int) == Some(usize::MAX),
{
}

} // verus!
