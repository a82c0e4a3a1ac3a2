use bigger_int::{BiggerInt, DecimalParts, Error};

fn max_value() -> BiggerInt {
    let mut s = String::from("0x7");
    for _ in 0..127 {
        s.push('f');
    }
    BiggerInt::from_str(&s).unwrap()
}

fn min_value() -> BiggerInt {
    let mut s = String::from("-0x8");
    for _ in 0..127 {
        s.push('0');
    }
    BiggerInt::from_str(&s).unwrap()
}

#[test]
fn u256() {
    let number = BiggerInt::default();
    let serialized = BiggerInt::from_str(&number.to_hex_string()).unwrap();
    assert_eq!(number, serialized);
}

#[test]
fn zero_and_one() {
    assert!(BiggerInt::zero().is_zero());
    assert_eq!(BiggerInt::one().to_i64(), Some(1));
    assert_eq!(BiggerInt::default(), BiggerInt::zero());
}

#[test]
fn widen_then_narrow_gives_back() {
    assert_eq!(BiggerInt::from(-5i8).to_i8(), Some(-5));
    assert_eq!(BiggerInt::from(-30000i16).to_i16(), Some(-30000));
    assert_eq!(BiggerInt::from(-2000000000i32).to_i32(), Some(-2000000000));
    assert_eq!(BiggerInt::from(i64::MIN).to_i64(), Some(i64::MIN));
    assert_eq!(BiggerInt::from(i128::MIN).to_i128(), Some(i128::MIN));
    assert_eq!(BiggerInt::from(i128::MAX).to_i128(), Some(i128::MAX));
    assert_eq!(BiggerInt::from(200u8).to_u8(), Some(200));
    assert_eq!(BiggerInt::from(60000u16).to_u16(), Some(60000));
    assert_eq!(BiggerInt::from(u32::MAX).to_u32(), Some(u32::MAX));
    assert_eq!(BiggerInt::from(u64::MAX).to_u64(), Some(u64::MAX));
    assert_eq!(BiggerInt::from(u128::MAX).to_u128(), Some(u128::MAX));
    assert_eq!(BiggerInt::from(usize::MAX).to_usize(), Some(usize::MAX));
    assert_eq!(BiggerInt::from(-7isize).to_i64(), Some(-7));
}

#[test]
fn narrowing_boundaries_signed() {
    let b = |v: i128| BiggerInt::from(v);
    assert_eq!(b(-128).to_i8(), Some(i8::MIN));
    assert_eq!(b(127).to_i8(), Some(i8::MAX));
    assert_eq!(b(-129).to_i8(), None);
    assert_eq!(b(128).to_i8(), None);
    assert_eq!(b(-32768).to_i16(), Some(i16::MIN));
    assert_eq!(b(32767).to_i16(), Some(i16::MAX));
    assert_eq!(b(-32769).to_i16(), None);
    assert_eq!(b(32768).to_i16(), None);
    assert_eq!(b(i32::MIN as i128).to_i32(), Some(i32::MIN));
    assert_eq!(b(i32::MAX as i128).to_i32(), Some(i32::MAX));
    assert_eq!(b(i32::MIN as i128 - 1).to_i32(), None);
    assert_eq!(b(i32::MAX as i128 + 1).to_i32(), None);
    assert_eq!(b(i64::MIN as i128).to_i64(), Some(i64::MIN));
    assert_eq!(b(i64::MAX as i128).to_i64(), Some(i64::MAX));
    assert_eq!(b(i64::MIN as i128 - 1).to_i64(), None);
    assert_eq!(b(i64::MAX as i128 + 1).to_i64(), None);
    let below = BiggerInt::from(i128::MIN) - BiggerInt::one();
    let above = BiggerInt::from(i128::MAX) + BiggerInt::one();
    assert_eq!(below.to_i128(), None);
    assert_eq!(above.to_i128(), None);
}

#[test]
fn narrowing_boundaries_unsigned() {
    let minus_one = BiggerInt::from(-1i8);
    assert_eq!(minus_one.to_u8(), None);
    assert_eq!(minus_one.to_u16(), None);
    assert_eq!(minus_one.to_u32(), None);
    assert_eq!(minus_one.to_u64(), None);
    assert_eq!(minus_one.to_u128(), None);
    assert_eq!(minus_one.to_usize(), None);
    assert_eq!(BiggerInt::zero().to_u8(), Some(0));
    assert_eq!(BiggerInt::from(256u16).to_u8(), None);
    assert_eq!(BiggerInt::from(65536u32).to_u16(), None);
    assert_eq!(BiggerInt::from(u32::MAX as u64 + 1).to_u32(), None);
    assert_eq!(BiggerInt::from(u64::MAX as u128 + 1).to_u64(), None);
    assert_eq!(BiggerInt::from(u64::MAX as u128 + 1).to_usize(), None);
    let above = BiggerInt::from(u128::MAX) + BiggerInt::one();
    assert_eq!(above.to_u128(), None);
}

#[test]
fn hex_wire_form() {
    assert_eq!(BiggerInt::zero().to_hex_string(), "0x0");
    assert_eq!(BiggerInt::from(255u8).to_hex_string(), "0xff");
    assert_eq!(BiggerInt::from(-1i8).to_hex_string(), "-0x1");
    assert_eq!(BiggerInt::from(-4096i32).to_hex_string(), "-0x1000");
}

#[test]
fn hex_round_trip() {
    for v in [
        BiggerInt::zero(),
        BiggerInt::one(),
        BiggerInt::from(-1i8),
        BiggerInt::from(i128::MIN),
        BiggerInt::from(u128::MAX),
        max_value(),
        min_value(),
    ] {
        assert_eq!(BiggerInt::from_str(&v.to_hex_string()).unwrap(), v);
    }
    assert_eq!(BiggerInt::from_str("0xFF").unwrap().to_i64(), Some(255));
    assert_eq!(BiggerInt::from_str("-0xa").unwrap().to_i64(), Some(-10));
}

#[test]
fn hex_decode_errors() {
    assert!(matches!(BiggerInt::from_str("ff"), Err(Error::Decode(_))));
    assert!(matches!(BiggerInt::from_str("12"), Err(Error::Decode(_))));
    assert!(matches!(BiggerInt::from_str(""), Err(Error::Decode(_))));
    assert!(matches!(BiggerInt::from_str("0x"), Err(Error::Decode(_))));
    assert!(matches!(BiggerInt::from_str("-0x"), Err(Error::Decode(_))));
    assert!(matches!(BiggerInt::from_str("0xfg"), Err(Error::Decode(_))));
    assert!(matches!(BiggerInt::from_str("0x-5"), Err(Error::Decode(_))));
    assert!(matches!(BiggerInt::from_str("0x+5"), Err(Error::Decode(_))));
    assert!(matches!(BiggerInt::from_str("-0x 1"), Err(Error::Decode(_))));
    let mut too_big = String::from("0x8");
    for _ in 0..127 {
        too_big.push('0');
    }
    assert!(matches!(BiggerInt::from_str(&too_big), Err(Error::Decode(_))));
}

#[test]
fn binary_layout() {
    let one = BiggerInt::one().to_le_bytes();
    assert_eq!(one.len(), 64);
    assert_eq!(one[0], 1);
    assert!(one[1..].iter().all(|b| *b == 0));
    let minus_one = BiggerInt::from(-1i8).to_le_bytes();
    assert!(minus_one.iter().all(|b| *b == 0xff));
    let v = BiggerInt::from(0x0102u16).to_le_bytes();
    assert_eq!(v[0], 2);
    assert_eq!(v[1], 1);
    assert_eq!(BiggerInt::revision(), 1);
}

#[test]
fn binary_round_trip() {
    for v in [
        BiggerInt::zero(),
        BiggerInt::from(-123456789i64),
        BiggerInt::from(u128::MAX),
        max_value(),
        min_value(),
    ] {
        let bytes = v.to_le_bytes();
        let mut arr = [0u8; 64];
        arr.copy_from_slice(&bytes);
        assert_eq!(BiggerInt::from_le_bytes(&arr), v);
    }
    let arr = [0xabu8; 64];
    assert_eq!(BiggerInt::from_le_bytes(&arr).to_le_bytes(), arr.to_vec());
}

#[test]
fn wrapping_arithmetic() {
    assert_eq!(max_value() + BiggerInt::one(), min_value());
    assert_eq!(min_value() - BiggerInt::one(), max_value());
    assert_eq!(-min_value(), min_value());
    assert_eq!(min_value().abs(), min_value());
    assert_eq!(BiggerInt::from(-5i8).abs().to_i8(), Some(5));
    assert_eq!((max_value() * BiggerInt::from(2u8)).to_i8(), Some(-2));
    let a = BiggerInt::from(-7i8);
    let b = BiggerInt::from(2i8);
    assert_eq!((a / b).to_i8(), Some(-3));
    assert_eq!((a % b).to_i8(), Some(-1));
    assert_eq!((&a + &b).to_i8(), Some(-5));
    assert_eq!((&a - &b).to_i8(), Some(-9));
    assert_eq!((&a * &b).to_i8(), Some(-14));
    assert_eq!((&a / &b).to_i8(), Some(-3));
    assert_eq!(BiggerInt::from(2u8).pow(10).to_i64(), Some(1024));
    assert!(BiggerInt::from(2u8).pow(512).is_zero());
}

#[test]
fn checked_arithmetic() {
    let one = BiggerInt::one();
    assert_eq!(max_value().checked_add(one), None);
    assert_eq!(min_value().checked_sub(one), None);
    assert_eq!(max_value().checked_mul(BiggerInt::from(2u8)), None);
    assert_eq!(max_value().checked_sub(one).unwrap().checked_add(one), Some(max_value()));
    assert_eq!(BiggerInt::from(6u8).checked_mul(BiggerInt::from(7u8)).unwrap().to_i8(), Some(42));
    assert_eq!(one.checked_div(BiggerInt::zero()), None);
    assert_eq!(one.checked_rem(BiggerInt::zero()), None);
    assert_eq!(min_value().checked_div(BiggerInt::from(-1i8)), None);
    assert_eq!(min_value().checked_rem(BiggerInt::from(-1i8)), None);
    assert_eq!(BiggerInt::from(-7i8).checked_div(BiggerInt::from(2i8)).unwrap().to_i8(), Some(-3));
    assert_eq!(BiggerInt::from(-7i8).checked_rem(BiggerInt::from(2i8)).unwrap().to_i8(), Some(-1));
}

#[test]
fn sum_and_product() {
    assert_eq!(BiggerInt::sum(&[]), BiggerInt::zero());
    assert_eq!(BiggerInt::product(&[]), BiggerInt::one());
    let items = [BiggerInt::from(2u8), BiggerInt::from(3u8), BiggerInt::from(-4i8)];
    assert_eq!(BiggerInt::sum(&items).to_i8(), Some(1));
    assert_eq!(BiggerInt::product(&items).to_i8(), Some(-24));
    assert_eq!(BiggerInt::sum(&[max_value(), BiggerInt::one()]), min_value());
}

#[test]
fn signs_and_order() {
    let neg = BiggerInt::from(-3i8);
    let pos = BiggerInt::from(3u8);
    let zero = BiggerInt::zero();
    assert!(neg.is_negative() && !neg.is_positive() && neg.is_zero_or_negative());
    assert!(pos.is_positive() && pos.is_zero_or_positive() && !pos.is_zero_or_negative());
    assert!(zero.is_zero_or_positive() && zero.is_zero_or_negative() && !zero.is_positive());
    assert_eq!(neg.cmp(pos), std::cmp::Ordering::Less);
    assert_eq!(pos.cmp(neg), std::cmp::Ordering::Greater);
    assert_eq!(pos.cmp(pos), std::cmp::Ordering::Equal);
    assert_eq!(min_value().cmp(max_value()), std::cmp::Ordering::Less);
    assert!(pos.eq(&BiggerInt::from(3i64)));
    assert!(!pos.eq(&neg));
}

#[test]
fn decimal_text() {
    assert_eq!(BiggerInt::try_from_str("-123").unwrap().to_i64(), Some(-123));
    assert_eq!(BiggerInt::try_from_str("007").unwrap().to_i64(), Some(7));
    assert_eq!(BiggerInt::try_from_string(String::from("42")).unwrap().to_i64(), Some(42));
    assert_eq!(BiggerInt::try_from_bytes(b"99").unwrap().to_i64(), Some(99));
    match BiggerInt::try_from_str("abc") {
        Err(Error::TryFrom(value, target)) => {
            assert_eq!(value, "abc");
            assert_eq!(target, "BiggerInt");
        }
        _ => panic!("expected a conversion error"),
    }
    assert!(BiggerInt::try_from_str("").is_err());
    assert!(BiggerInt::try_from_str("+5").is_err());
    assert!(BiggerInt::try_from_str("-").is_err());
    assert!(BiggerInt::try_from_str("0x10").is_err());
    assert!(BiggerInt::try_from_bytes(&[0xff, b'1']).is_err());
    assert_eq!(BiggerInt::from(-255i16).to_string(), "-255");
    assert_eq!(BiggerInt::zero().to_string(), "0");
    assert_eq!(BiggerInt::try_from_str(&max_value().to_string()).unwrap(), max_value());
    assert_eq!(BiggerInt::try_from_str(&min_value().to_string()).unwrap(), min_value());
}

#[test]
fn from_decimal() {
    let d = DecimalParts::new(1275, 2).unwrap();
    assert_eq!(BiggerInt::try_from_decimal(d).unwrap().to_i64(), Some(12));
    let d = DecimalParts::new(-1275, 2).unwrap();
    assert_eq!(BiggerInt::try_from_decimal(d).unwrap().to_i64(), Some(-12));
    let d = DecimalParts::new(79228162514264337593543950335, 0).unwrap();
    assert_eq!(
        BiggerInt::try_from_decimal(d).unwrap().to_i128(),
        Some(79228162514264337593543950335)
    );
    assert!(DecimalParts::new(1, 29).is_none());
}
