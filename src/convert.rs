//! Lossless conversions from the native integer widths.
use vstd::prelude::*;
use crate::value::BiggerInt;

verus! {

impl From<i8> for BiggerInt {
    fn from(v: i8) -> (r: BiggerInt)
        ensures
            r@ == v,
    {
        BiggerInt::from_i128(v as i128)
    }
}

impl vstd::std_specs::convert::FromSpecImpl<i8> for BiggerInt {
    open spec fn obeys_from_spec() -> bool {
        false
    }

    open spec fn from_spec(v: i8) -> BiggerInt {
        arbitrary()
    }
}

impl From<i16> for BiggerInt {
    fn from(v: i16) -> (r: BiggerInt)
        ensures
            r@ == v,
    {
        BiggerInt::from_i128(v as i128)
    }
}

impl vstd::std_specs::convert::FromSpecImpl<i16> for BiggerInt {
    open spec fn obeys_from_spec() -> bool {
        false
    }

    open spec fn from_spec(v: i16) -> BiggerInt {
        arbitrary()
    }
}

impl From<i32> for BiggerInt {
    fn from(v: i32) -> (r: BiggerInt)
        ensures
            r@ == v,
    {
        BiggerInt::from_i128(v as i128)
    }
}

impl vstd::std_specs::convert::FromSpecImpl<i32> for BiggerInt {
    open spec fn obeys_from_spec() -> bool {
        false
    }

    open spec fn from_spec(v: i32) -> BiggerInt {
        arbitrary()
    }
}

impl From<i64> for BiggerInt {
    fn from(v: i64) -> (r: BiggerInt)
        ensures
            r@ == v,
    {
        BiggerInt::from_i128(v as i128)
    }
}

impl vstd::std_specs::convert::FromSpecImpl<i64> for BiggerInt {
    open spec fn obeys_from_spec() -> bool {
        false
    }

    open spec fn from_spec(v: i64) -> BiggerInt {
        arbitrary()
    }
}

impl From<i128> for BiggerInt {
    fn from(v: i128) -> (r: BiggerInt)
        ensures
            r@ == v,
    {
        BiggerInt::from_i128(v as i128)
    }
}

impl vstd::std_specs::convert::FromSpecImpl<i128> for BiggerInt {
    open spec fn obeys_from_spec() -> bool {
        false
    }

    open spec fn from_spec(v: i128) -> BiggerInt {
        arbitrary()
    }
}

impl From<isize> for BiggerInt {
    fn from(v: isize) -> (r: BiggerInt)
        ensures
            r@ == v,
    {
        BiggerInt::from_i128(v as i128)
    }
}

impl vstd::std_specs::convert::FromSpecImpl<isize> for BiggerInt {
    open spec fn obeys_from_spec() -> bool {
        false
    }

    open spec fn from_spec(v: isize) -> BiggerInt {
        arbitrary()
    }
}

impl From<u8> for BiggerInt {
    fn from(v: u8) -> (r: BiggerInt)
        ensures
            r@ == v,
    {
        BiggerInt::from_u128(v as u128)
    }
}

impl vstd::std_specs::convert::FromSpecImpl<u8> for BiggerInt {
    open spec fn obeys_from_spec() -> bool {
        false
    }

    open spec fn from_spec(v: u8) -> BiggerInt {
        arbitrary()
    }
}

impl From<u16> for BiggerInt {
    fn from(v: u16) -> (r: BiggerInt)
        ensures
            r@ == v,
    {
        BiggerInt::from_u128(v as u128)
    }
}

impl vstd::std_specs::convert::FromSpecImpl<u16> for BiggerInt {
    open spec fn obeys_from_spec() -> bool {
        false
    }

    open spec fn from_spec(v: u16) -> BiggerInt {
        arbitrary()
    }
}

impl From<u32> for BiggerInt {
    fn from(v: u32) -> (r: BiggerInt)
        ensures
            r@ == v,
    {
        BiggerInt::from_u128(v as u128)
    }
}

impl vstd::std_specs::convert::FromSpecImpl<u32> for BiggerInt {
    open spec fn obeys_from_spec() -> bool {
        false
    }

    open spec fn from_spec(v: u32) -> BiggerInt {
        arbitrary()
    }
}

impl From<u64> for BiggerInt {
    fn from(v: u64) -> (r: BiggerInt)
        ensures
            r@ == v,
    {
        BiggerInt::from_u128(v as u128)
    }
}

impl vstd::std_specs::convert::FromSpecImpl<u64> for BiggerInt {
    open spec fn obeys_from_spec() -> bool {
        false
    }

    open spec fn from_spec(v: u64) -> BiggerInt {
        arbitrary()
    }
}

impl From<u128> for BiggerInt {
    fn from(v: u128) -> (r: BiggerInt)
        ensures
            r@ == v,
    {
        BiggerInt::from_u128(v as u128)
    }
}

impl vstd::std_specs::convert::FromSpecImpl<u128> for BiggerInt {
    open spec fn obeys_from_spec() -> bool {
        false
    }

    open spec fn from_spec(v: u128) -> BiggerInt {
        arbitrary()
    }
}

impl From<usize> for BiggerInt {
    fn from(v: usize) -> (r: BiggerInt)
        ensures
            r@ == v,
    {
        BiggerInt::from_u128(v as u128)
    }
}

impl vstd::std_specs::convert::FromSpecImpl<usize> for BiggerInt {
    open spec fn obeys_from_spec() -> bool {
        false
    }

    open spec fn from_spec(v: usize) -> BiggerInt {
        arbitrary()
    }
}

} // verus!
