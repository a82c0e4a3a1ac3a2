//! Positional digit strings in base 10 and 16: what a digit string is worth,
//! and the canonical digit string of a number.
use vstd::prelude::*;

verus! {

/// The radixes that this library reads and writes text in.
pub open spec fn supported_radix(radix: nat) -> bool {
    radix == 10 || radix == 16
}

/// The value of one ASCII digit or letter, case-insensitive, or 36 for any
/// other character.
pub open spec fn digit_value(c: char) -> nat {
    if '0' <= c && c <= '9' {
        (c as nat - '0' as nat) as nat
    } else if 'a' <= c && c <= 'z' {
        (c as nat - 'a' as nat + 10) as nat
    } else if 'A' <= c && c <= 'Z' {
        (c as nat - 'A' as nat + 10) as nat
    } else {
        36
    }
}

pub open spec fn is_digit_in(c: char, radix: nat) -> bool {
    digit_value(c) < radix
}

pub open spec fn all_digits_in(s: Seq<char>, radix: nat) -> bool {
    forall|i: int| 0 <= i < s.len() ==> is_digit_in(#[trigger] s[i], radix)
}

/// The number that a string of digits spells, most significant first.
pub open spec fn digits_value(s: Seq<char>, radix: nat) -> nat
    decreases s.len(),
{
    if s.len() == 0 {
        0
    } else {
        digits_value(s.drop_last(), radix) * radix + digit_value(s.last())
    }
}

/// The lowercase character of a digit below 36.
pub open spec fn digit_char(d: nat) -> char {
    if d < 10 {
        ('0' as nat + d) as char
    } else {
        ('a' as nat + d - 10) as char
    }
}

/// The digits of `n` in `radix`, most significant first, with no leading zero
/// (zero itself is the single digit `0`).
pub open spec fn digits_of(n: nat, radix: nat) -> Seq<char>
    recommends
        radix >= 2,
    decreases n,
    when radix >= 2
    via digits_of_decreases
{
    if n < radix {
        seq![digit_char(n)]
    } else {
        digits_of(n / radix, radix).push(digit_char(n % radix))
    }
}

#[via_fn]
proof fn digits_of_decreases(n: nat, radix: nat) {
    if radix >= 2 && n >= radix {
        vstd::arithmetic::div_mod::lemma_div_decreases(n as int, radix as int);
    }
}

/// The signed text of `v`: a `-` before the digits of its magnitude when negative.
pub open spec fn signed_text(v: int, radix: nat) -> Seq<char> {
    if v < 0 {
        seq!['-'] + digits_of((-v) as nat, radix)
    } else {
        digits_of(v as nat, radix)
    }
}

/// The digits after an optional leading sign.
pub open spec fn unsigned_part(s: Seq<char>) -> Seq<char> {
    if s.len() > 0 && (s[0] == '-' || s[0] == '+') {
        s.subrange(1, s.len() as int)
    } else {
        s
    }
}

/// An optional sign followed by at least one digit of `radix`.
pub open spec fn is_signed_numeral(s: Seq<char>, radix: nat) -> bool {
    unsigned_part(s).len() > 0 && all_digits_in(unsigned_part(s), radix)
}

/// The value of a signed numeral.
pub open spec fn signed_numeral_value(s: Seq<char>, radix: nat) -> int {
    let m = digits_value(unsigned_part(s), radix) as int;
    if s.len() > 0 && s[0] == '-' {
        -m
    } else {
        m
    }
}

/// A signed numeral whose value fits in 512 signed bits, and that in base 16
/// has at most 128 digits.
pub open spec fn numeral_fits(s: Seq<char>, radix: nat) -> bool {
    &&& is_signed_numeral(s, radix)
    &&& crate::model::in_i512_range(signed_numeral_value(s, radix))
    &&& (radix == 16 ==> unsigned_part(s).len() <= 128)
}

} // verus!
verus! {

pub proof fn lemma_digit_char_value(d: nat)
    requires
        d < 16,
    ensures
        digit_value(digit_char(d)) == d,
        digit_char(d) != '-' && digit_char(d) != '+',
{
}

/// The canonical digits of `n` are at least one digit of the radix, and spell `n`.
pub proof fn lemma_digits_of(n: nat, radix: nat)
    requires
        supported_radix(radix),
    ensures
        digits_of(n, radix).len() >= 1,
        all_digits_in(digits_of(n, radix), radix),
        digits_value(digits_of(n, radix), radix) == n,
    decreases n,
{
    if n < radix {
        lemma_digit_char_value(n);
        let s = digits_of(n, radix);
        assert(radix >= 2);
        assert(s == seq![digit_char(n)]);
        assert(s.len() == 1);
        assert(s.drop_last() =~= Seq::<char>::empty());
        assert(s.last() == digit_char(n));
        assert(digits_value(s, radix) == digits_value(s.drop_last(), radix) * radix + n);
    } else {
        vstd::arithmetic::div_mod::lemma_div_decreases(n as int, radix as int);
        lemma_digits_of(n / radix, radix);
        let p = digits_of(n / radix, radix);
        let s = digits_of(n, radix);
        assert(s == p.push(digit_char(n % radix)));
        lemma_digit_char_value(n % radix);
        assert(s.drop_last() =~= p);
        assert forall|i: int| 0 <= i < s.len() implies is_digit_in(#[trigger] s[i], radix) by {
            if i < p.len() {
                assert(s[i] == p[i]);
            }
        }
        vstd::arithmetic::div_mod::lemma_fundamental_div_mod(n as int, radix as int);
        assert(s.last() == digit_char(n % radix));
        assert(digits_value(s, radix) == digits_value(p, radix) * radix + (n % radix));
        assert((n / radix) * radix == radix * (n / radix)) by (nonlinear_arith);
    }
}

/// 16^k.
pub open spec fn hex_pow(k: nat) -> int
    decreases k,
{
    if k == 0 {
        1
    } else {
        16 * hex_pow((k - 1) as nat)
    }
}

/// A number below 16^k has at most k hexadecimal digits.
pub proof fn lemma_hex_digits_len(n: nat, k: nat)
    requires
        n < hex_pow(k),
        k >= 1,
    ensures
        digits_of(n, 16).len() <= k,
    decreases n,
{
    if n >= 16 {
        let q = n / 16;
        vstd::arithmetic::div_mod::lemma_fundamental_div_mod(n as int, 16);
        if k == 1 {
            assert(hex_pow(1) == 16 * hex_pow(0));
        } else {
            let p = hex_pow((k - 1) as nat);
            assert(q < p) by (nonlinear_arith)
                requires
                    n == 16 * q + n % 16,
                    0 <= n % 16,
                    n < 16 * p,
            ;
            lemma_hex_digits_len(q, (k - 1) as nat);
        }
    }
}

pub proof fn lemma_hex_pow_adds(a: nat, b: nat)
    ensures
        hex_pow(a + b) == hex_pow(a) * hex_pow(b),
    decreases a,
{
    if a > 0 {
        lemma_hex_pow_adds((a - 1) as nat, b);
        assert(hex_pow(a + b) == 16 * hex_pow((a - 1 + b) as nat));
        assert(16 * (hex_pow((a - 1) as nat) * hex_pow(b)) == (16 * hex_pow((a - 1) as nat))
            * hex_pow(b)) by (nonlinear_arith);
    }
}

/// Sixteen hexadecimal digits make one limb.
pub proof fn lemma_hex_pow_limbs(m: nat)
    ensures
        hex_pow(16 * m) == crate::model::limb_pow(m),
    decreases m,
{
    if m > 0 {
        lemma_hex_pow_limbs((m - 1) as nat);
        lemma_hex_pow_adds(16, 16 * (m - 1) as nat);
        reveal_with_fuel(hex_pow, 17);
        assert(16 * m == 16 + 16 * (m - 1) as nat);
    }
}

} // verus!
