//! Text forms of a value: the hexadecimal wire form (`0x…` / `-0x…`), the
//! decimal construction grammar (`-` then digits) and decimal display.
use vstd::prelude::*;
use crate::error::Error;
use crate::model::{full_range, half_range, in_i512_range, lemma_range_facts, limbs_value};
use crate::primitive::{i512_from_str_radix, i512_to_str_radix};
use crate::radix::{
    all_digits_in, digit_value, digits_of, digits_value, lemma_digits_of, lemma_hex_digits_len,
    lemma_hex_pow_limbs, numeral_fits, signed_numeral_value, signed_text, unsigned_part,
};
use crate::value::BiggerInt;

verus! {

/// The wire text of `v`: `0x` or `-0x`, then the lowercase hexadecimal digits
/// of its magnitude.
pub open spec fn hex_wire(v: int) -> Seq<char> {
    if v < 0 {
        seq!['-', '0', 'x'] + digits_of((-v) as nat, 16)
    } else {
        seq!['0', 'x'] + digits_of(v as nat, 16)
    }
}

pub open spec fn has_negative_prefix(s: Seq<char>) -> bool {
    s.len() >= 3 && s[0] == '-' && s[1] == '0' && s[2] == 'x'
}

pub open spec fn has_positive_prefix(s: Seq<char>) -> bool {
    s.len() >= 2 && s[0] == '0' && s[1] == 'x'
}

/// What follows the `-0x` or `0x` prefix.
pub open spec fn hex_body(s: Seq<char>) -> Seq<char> {
    if has_negative_prefix(s) {
        s.subrange(3, s.len() as int)
    } else {
        s.subrange(2, s.len() as int)
    }
}

/// The value that wire text stands for.
pub open spec fn hex_wire_value(s: Seq<char>) -> int {
    let m = digits_value(hex_body(s), 16) as int;
    if has_negative_prefix(s) {
        -m
    } else {
        m
    }
}

/// Well-formed wire text: a prefix, then one to 128 hexadecimal digits of
/// either case, whose value fits.
pub open spec fn hex_wire_ok(s: Seq<char>) -> bool {
    &&& has_negative_prefix(s) || has_positive_prefix(s)
    &&& hex_body(s).len() > 0
    &&& hex_body(s).len() <= 128
    &&& all_digits_in(hex_body(s), 16)
    &&& in_i512_range(hex_wire_value(s))
}

/// Well-formed construction text: an optional `-` and then decimal digits,
/// whose value fits.
pub open spec fn decimal_text_ok(s: Seq<char>) -> bool {
    s.len() > 0 && s[0] != '+' && numeral_fits(s, 10)
}

/// The lossy UTF-8 reading of a byte string (invalid sequences become U+FFFD).
pub uninterp spec fn utf8_lossy(b: Seq<u8>) -> Seq<char>;

/// Relies on `String::from_utf8_lossy`.
#[verifier::external_body]
fn lossy_text(b: &[u8]) -> (r: String)
    ensures
        r@ == utf8_lossy(b@),
{
    String::from_utf8_lossy(b).into_owned()
}

fn target_label() -> (r: String)
    ensures
        r@ == seq!['B', 'i', 'g', 'g', 'e', 'r', 'I', 'n', 't'],
{
    proof {
        reveal_strlit("BiggerInt");
    }
    String::from_str("BiggerInt")
}

impl BiggerInt {
    /// The wire text: `0x` or `-0x` and the lowercase hexadecimal digits of
    /// the magnitude.
    pub fn to_hex_string(&self) -> (r: String)
        ensures
            r@ == hex_wire(self@),
    {
        let t = i512_to_str_radix(&self.limbs, 16);
        if self.is_negative() {
            proof {
                reveal_strlit("-0x");
            }
            let mut out = String::from_str("-0x");
            let ts = t.as_str();
            let n = ts.unicode_len();
            assert(t@ == seq!['-'] + digits_of((-self@) as nat, 16));
            let digits = ts.substring_char(1, n);
            assert(digits@ =~= digits_of((-self@) as nat, 16));
            out.append(digits);
            assert(out@ =~= hex_wire(self@));
            out
        } else {
            proof {
                reveal_strlit("0x");
            }
            let mut out = String::from_str("0x");
            out.append(t.as_str());
            assert(out@ =~= hex_wire(self@));
            out
        }
    }

    /// Reads the wire text. Anything but `0x` or `-0x` followed by one to 128
    /// hexadecimal digits whose value fits is a decode error.
    pub fn from_str(s: &str) -> (r: Result<BiggerInt, Error>)
        ensures
            r is Ok <==> hex_wire_ok(s@),
            r matches Ok(v) ==> v@ == hex_wire_value(s@),
    {
        let n = s.unicode_len();
        let negative = n >= 3 && s.get_char(0) == '-' && s.get_char(1) == '0' && s.get_char(2)
            == 'x';
        let positive = !negative && n >= 2 && s.get_char(0) == '0' && s.get_char(1) == 'x';
        if !negative && !positive {
            return Err(Error::Decode(String::from_str(s)));
        }
        let start: usize = if negative { 3 } else { 2 };
        let body = s.substring_char(start, n);
        assert(body@ == hex_body(s@));
        if body.unicode_len() == 0 || body.get_char(0) == '-' || body.get_char(0) == '+' {
            assert(!all_digits_in(body@, 16) || body@.len() == 0);
            return Err(Error::Decode(String::from_str(s)));
        }
        let parsed = if negative {
            proof {
                reveal_strlit("-");
            }
            let mut signed = String::from_str("-");
            signed.append(body);
            assert(unsigned_part(signed@) =~= body@);
            i512_from_str_radix(signed.as_str(), 16)
        } else {
            assert(unsigned_part(body@) =~= body@);
            i512_from_str_radix(body, 16)
        };
        match parsed {
            Some(limbs) => Ok(BiggerInt { limbs }),
            None => Err(Error::Decode(String::from_str(s))),
        }
    }

    /// Decimal display: the digits of the magnitude, after a `-` when negative.
    pub fn to_string(&self) -> (r: String)
        ensures
            r@ == signed_text(self@, 10),
    {
        i512_to_str_radix(&self.limbs, 10)
    }

    /// Builds a value from decimal text: an optional `-` and then digits.
    pub fn try_from_str(s: &str) -> (r: Result<BiggerInt, Error>)
        ensures
            r is Ok <==> decimal_text_ok(s@),
            r matches Ok(v) ==> v@ == signed_numeral_value(s@, 10),
            r matches Err(Error::TryFrom(value, target)) ==> value@ == s@ && target@ == seq![
                'B',
                'i',
                'g',
                'g',
                'e',
                'r',
                'I',
                'n',
                't',
            ],
    {
        let plus = s.unicode_len() > 0 && s.get_char(0) == '+';
        let parsed = if plus {
            None
        } else {
            i512_from_str_radix(s, 10)
        };
        match parsed {
            Some(limbs) => Ok(BiggerInt { limbs }),
            None => Err(Error::TryFrom(String::from_str(s), target_label())),
        }
    }

    /// Builds a value from decimal text held in a `String`.
    pub fn try_from_string(s: String) -> (r: Result<BiggerInt, Error>)
        ensures
            r is Ok <==> decimal_text_ok(s@),
            r matches Ok(v) ==> v@ == signed_numeral_value(s@, 10),
            r matches Err(Error::TryFrom(value, _)) ==> value@ == s@,
    {
        BiggerInt::try_from_str(s.as_str())
    }

    /// Builds a value from bytes, read as UTF-8 with invalid sequences
    /// replaced, then as decimal text.
    pub fn try_from_bytes(b: &[u8]) -> (r: Result<BiggerInt, Error>)
        ensures
            r is Ok <==> decimal_text_ok(utf8_lossy(b@)),
            r matches Ok(v) ==> v@ == signed_numeral_value(utf8_lossy(b@), 10),
            r matches Err(Error::TryFrom(value, _)) ==> value@ == utf8_lossy(b@),
    {
        let s = lossy_text(b);
        BiggerInt::try_from_str(s.as_str())
    }
}

/// Reading back the wire text of any value gives that value.
pub proof fn lemma_hex_round_trip(v: BiggerInt)
    ensures
        hex_wire_ok(hex_wire(v@)),
        hex_wire_value(hex_wire(v@)) == v@,
{
    v.lemma_in_range();
    lemma_range_facts();
    let m: nat = if v@ < 0 { (-v@) as nat } else { v@ as nat };
    let d = digits_of(m, 16);
    let s = hex_wire(v@);
    lemma_digits_of(m, 16);
    lemma_hex_pow_limbs(8);
    assert(16 * 8 == 128nat);
    lemma_hex_digits_len(m, 128);
    assert(hex_body(s) =~= d);
}

/// Text without the `0x` or `-0x` prefix, or with a character after it that
/// is not a hexadecimal digit, is not wire text.
pub proof fn lemma_hex_rejects(s: Seq<char>, i: int)
    ensures
        !has_negative_prefix(s) && !has_positive_prefix(s) ==> !hex_wire_ok(s),
        0 <= i < hex_body(s).len() && digit_value(hex_body(s)[i]) >= 16 ==> !hex_wire_ok(s),
{
}

} // verus!
