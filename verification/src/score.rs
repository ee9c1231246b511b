//! Similarity scores.
//!
//! A [`Score`] is a single-precision number held as its IEEE 754 bit pattern: a sign
//! bit, an eight-bit exponent and a 23-bit fraction. Every finite score is a whole
//! number of units of two to the power of minus 149, which is what the specification
//! computes with: the order of two scores and the decimal text of a score are stated
//! over those exact numbers, without rounding.

use vstd::arithmetic::div_mod::*;
use vstd::arithmetic::mul::*;
use vstd::arithmetic::power2::*;
use vstd::prelude::*;
use vstd::string::*;

use crate::text;

verus! {

/// Bit pattern of the sign bit.
pub const SIGN_BIT: u32 = 0x8000_0000;

/// Bit pattern of positive infinity.
pub const INFINITY_BITS: u32 = 0x7f80_0000;

/// Distance between two neighbouring exponents in the bit pattern.
pub const EXPONENT_UNIT: u32 = 0x80_0000;

/// The similarity of a chunk to a query, as a single-precision bit pattern.
///
/// `==` is that of numbers: the two zeros are equal, and a score that is not a number
/// equals nothing, itself included.
#[derive(Debug, Clone, Copy)]
pub struct Score {
    bits: u32,
}

/// Whether the sign bit is set.
pub open spec fn negative(bits: u32) -> bool {
    bits >= SIGN_BIT
}

/// The bit pattern without its sign bit.
pub open spec fn magnitude(bits: u32) -> nat {
    if negative(bits) {
        (bits - SIGN_BIT) as nat
    } else {
        bits as nat
    }
}

/// Whether the bit pattern is not a number.
pub open spec fn not_a_number(bits: u32) -> bool {
    magnitude(bits) > INFINITY_BITS
}

/// Whether the bit pattern is one of the two infinities.
pub open spec fn infinite(bits: u32) -> bool {
    magnitude(bits) == INFINITY_BITS
}

/// The absolute value of a finite number, in units of two to the power of minus 149.
/// Of infinity it is a number above every finite one.
pub open spec fn units(magnitude: nat) -> nat {
    let exponent = magnitude / EXPONENT_UNIT as nat;
    let fraction = magnitude % EXPONENT_UNIT as nat;
    if exponent == 0 {
        fraction
    } else {
        (EXPONENT_UNIT as nat + fraction) * pow2((exponent - 1) as nat)
    }
}

/// The value of a number, in units of two to the power of minus 149.
pub open spec fn signed_units(bits: u32) -> int {
    if negative(bits) {
        -units(magnitude(bits))
    } else {
        units(magnitude(bits)) as int
    }
}

/// Whether `a` is a number that is at least the number `b`.
pub open spec fn score_at_least(a: u32, b: u32) -> bool {
    &&& !not_a_number(a)
    &&& !not_a_number(b)
    &&& signed_units(a) >= signed_units(b)
}

/// The whole number nearest to `n / d`, the even one of two that are equally near.
pub open spec fn round_half_even(n: nat, d: nat) -> nat
    recommends
        d > 0,
{
    let below = n / d;
    let rest = n % d;
    if 2 * rest < d || (2 * rest == d && below % 2 == 0) {
        below
    } else {
        below + 1
    }
}

/// A finite absolute value in thousandths, rounded to the nearest.
pub open spec fn thousandths(magnitude: nat) -> nat {
    round_half_even(units(magnitude) * 1000, pow2(149))
}

/// The three decimal digits of `n`, with leading zeros.
pub open spec fn three_digits(n: nat) -> Seq<char>
    recommends
        n < 1000,
{
    seq![text::digit_char(n / 100), text::digit_char(n / 10 % 10), text::digit_char(n % 10)]
}

/// The score with three digits after the decimal point.
pub open spec fn fixed_text(bits: u32) -> Seq<char> {
    let sign = if negative(bits) {
        "-"@
    } else {
        Seq::empty()
    };
    if not_a_number(bits) {
        "NaN"@
    } else if infinite(bits) {
        sign + "inf"@
    } else {
        let t = thousandths(magnitude(bits));
        sign + text::decimal(t / 1000) + "."@ + three_digits(t % 1000)
    }
}

/// A larger bit pattern stands for a larger absolute value.
pub proof fn lemma_units_increase(a: nat, b: nat)
    requires
        a < b,
    ensures
        units(a) < units(b),
{
    let unit = EXPONENT_UNIT as nat;
    let (ea, fa) = (a / unit, a % unit);
    let (eb, fb) = (b / unit, b % unit);
    lemma_fundamental_div_mod(a as int, unit as int);
    lemma_fundamental_div_mod(b as int, unit as int);
    assert(ea <= eb);
    if ea == eb {
        assert(fa < fb);
        if ea > 0 {
            lemma_pow2_pos((ea - 1) as nat);
            lemma_mul_strict_inequality(
                (unit + fa) as int,
                (unit + fb) as int,
                pow2((ea - 1) as nat) as int,
            );
        }
    } else {
        let p = pow2((eb - 1) as nat);
        lemma_pow2_pos((eb - 1) as nat);
        lemma_mul_inequality(unit as int, (unit + fb) as int, p as int);
        if ea == 0 {
            lemma_mul_inequality(1, p as int, unit as int);
            lemma_mul_is_commutative(unit as int, p as int);
        } else {
            let q = pow2((ea - 1) as nat);
            lemma_pow2_pos((ea - 1) as nat);
            lemma_mul_strict_inequality((unit + fa) as int, (2 * unit) as int, q as int);
            lemma_pow2_unfold(ea);
            assert(2 * unit * q == unit * pow2(ea)) by (nonlinear_arith)
                requires
                    pow2(ea) == 2 * q,
            ;
            if ea < eb - 1 {
                lemma_pow2_strictly_increases(ea, (eb - 1) as nat);
            }
            lemma_mul_inequality(pow2(ea) as int, p as int, unit as int);
            lemma_mul_is_commutative(unit as int, p as int);
            lemma_mul_is_commutative(unit as int, pow2(ea) as int);
        }
    }
}

/// Rounding does not depend on a common factor of numerator and denominator.
proof fn lemma_round_common_factor(n: nat, d: nat, c: nat)
    requires
        d > 0,
        c > 0,
    ensures
        round_half_even(c * n, c * d) == round_half_even(n, d),
{
    lemma_div_multiples_vanish_quotient(c as int, n as int, d as int);
    lemma_truncate_middle(n as int, c as int, d as int);
    let rest = n % d;
    assert(2 * (c * rest) < c * d <==> 2 * rest < d) by (nonlinear_arith)
        requires
            c > 0,
    ;
    assert(2 * (c * rest) == c * d <==> 2 * rest == d) by (nonlinear_arith)
        requires
            c > 0,
    ;
}

/// Two to the power of `exponent`.
fn power_of_two(exponent: u32) -> (r: u128)
    requires
        exponent < 128,
    ensures
        r == pow2(exponent as nat),
{
    let mut power: u128 = 1;
    proof {
        lemma2_to64();
    }
    for i in 0..exponent
        invariant
            exponent < 128,
            power == pow2(i as nat),
    {
        proof {
            lemma_pow2_unfold(i as nat + 1);
            lemma_pow2_unfold(128);
            if i < 126 {
                lemma_pow2_strictly_increases(i as nat + 1, 127);
            }
            assert(pow2(127) == 0x8000_0000_0000_0000_0000_0000_0000_0000) by {
                lemma2_to64();
                lemma2_to64_rest();
                lemma_pow2_adds(63, 64);
            }
        }
        power = 2 * power;
    }
    power
}

/// A finite absolute value in thousandths, rounded to the nearest: the whole part and
/// the three digits after the decimal point.
fn rounded_thousandths(size: u32) -> (r: (u128, u32))
    requires
        size < INFINITY_BITS,
    ensures
        r.1 < 1000,
        r.0 * 1000 + r.1 == thousandths(size as nat),
{
    let exponent: u32 = size / EXPONENT_UNIT;
    let fraction: u32 = size % EXPONENT_UNIT;
    let (significand, shift): (u32, u32) = if exponent == 0 {
        (fraction, 0)
    } else {
        (EXPONENT_UNIT + fraction, exponent - 1)
    };
    proof {
        lemma2_to64();
        lemma2_to64_rest();
        lemma_mul_basics(significand as int);
        assert(units(size as nat) == significand * pow2(shift as nat));
    }
    if shift >= 149 {
        let power = power_of_two(shift - 149);
        let ghost whole = significand * power;
        proof {
            lemma_pow2_adds((shift - 149) as nat, 149);
            lemma_pow2_pos(149);
            assert(units(size as nat) * 1000 == pow2(149) * (whole * 1000)) by (nonlinear_arith)
                requires
                    units(size as nat) == significand * pow2(shift as nat),
                    pow2(shift as nat) == power * pow2(149),
                    whole == significand * power,
            ;
            lemma_div_multiples_vanish(whole * 1000, pow2(149) as int);
            lemma_mod_multiples_basic(whole * 1000, pow2(149) as int);
            lemma_mul_is_commutative(whole * 1000, pow2(149) as int);
            lemma_pow2_adds(24, 104);
            lemma_pow2_pos((shift - 149) as nat);
            if shift - 149 < 104 {
                lemma_pow2_strictly_increases((shift - 149) as nat, 104);
            }
            assert(pow2(128) == 0x1_0000_0000_0000_0000_0000_0000_0000_0000) by {
                lemma_pow2_adds(64, 64);
            }
            assert(significand * power < pow2(128)) by (nonlinear_arith)
                requires
                    significand < pow2(24),
                    0 < power <= pow2(104),
                    pow2(128) == pow2(24) * pow2(104),
            ;
        }
        return (significand as u128 * power, 0);
    }
    let drop: u32 = 149 - shift;
    let numerator: u64 = significand as u64 * 1000;
    proof {
        lemma_pow2_adds(shift as nat, drop as nat);
        lemma_pow2_pos(shift as nat);
        lemma_pow2_pos(drop as nat);
        assert(units(size as nat) * 1000 == pow2(shift as nat) * numerator) by (nonlinear_arith)
            requires
                units(size as nat) == significand * pow2(shift as nat),
                numerator == significand * 1000,
        ;
        lemma_round_common_factor(numerator as nat, pow2(drop as nat), pow2(shift as nat));
        assert(thousandths(size as nat) == round_half_even(numerator as nat, pow2(drop as nat)));
    }
    if drop >= 36 {
        proof {
            if drop > 36 {
                lemma_pow2_strictly_increases(36, drop as nat);
            }
            lemma_small_mod(numerator as nat, pow2(drop as nat));
            lemma_basic_div(numerator as int, pow2(drop as nat) as int);
        }
        return (0, 0);
    }
    let divisor: u64 = power_of_two(drop) as u64;
    proof {
        if drop < 36 {
            lemma_pow2_strictly_increases(drop as nat, 36);
        }
    }
    let below: u64 = numerator / divisor;
    let rest: u64 = numerator % divisor;
    let nearest: u64 = if 2 * rest < divisor || (2 * rest == divisor && below % 2 == 0) {
        below
    } else {
        below + 1
    };
    ((nearest / 1000) as u128, (nearest % 1000) as u32)
}

impl PartialEq for Score {
    fn eq(&self, other: &Score) -> (r: bool) {
        self.at_least(*other) && other.at_least(*self)
    }
}

impl vstd::std_specs::cmp::PartialEqSpecImpl for Score {
    open spec fn obeys_eq_spec() -> bool {
        true
    }

    open spec fn eq_spec(&self, other: &Score) -> bool {
        score_at_least(self@, other@) && score_at_least(other@, self@)
    }
}

impl View for Score {
    type V = u32;

    closed spec fn view(&self) -> u32 {
        self.bits
    }
}

impl Score {
    /// The score with the given single-precision bit pattern.
    pub fn from_bits(bits: u32) -> (r: Self)
        ensures
            r@ == bits,
    {
        Score { bits }
    }

    /// The single-precision bit pattern of this score.
    pub fn to_bits(self) -> (r: u32)
        ensures
            r == self@,
    {
        self.bits
    }

    /// Whether this score is at least `minimum`. Nothing is at least a score that is
    /// not a number, and such a score is at least nothing.
    pub fn at_least(self, minimum: Score) -> (r: bool)
        ensures
            r == score_at_least(self@, minimum@),
    {
        let (a, b) = (self.bits, minimum.bits);
        let (a_negative, b_negative) = (a >= SIGN_BIT, b >= SIGN_BIT);
        let a_size: u32 = if a_negative { a - SIGN_BIT } else { a };
        let b_size: u32 = if b_negative { b - SIGN_BIT } else { b };
        if a_size > INFINITY_BITS || b_size > INFINITY_BITS {
            return false;
        }
        proof {
            if a_size < b_size {
                lemma_units_increase(a_size as nat, b_size as nat);
            }
            if b_size < a_size {
                lemma_units_increase(b_size as nat, a_size as nat);
            }
            if 0 < a_size {
                lemma_units_increase(0, a_size as nat);
            }
            if 0 < b_size {
                lemma_units_increase(0, b_size as nat);
            }
        }
        if a_negative {
            if b_negative { a_size <= b_size } else { a_size == 0 && b_size == 0 }
        } else {
            b_negative || a_size >= b_size
        }
    }

    /// The score with three digits after the decimal point, rounded to the nearest.
    pub fn to_fixed_text(self) -> (r: String)
        ensures
            r@ == fixed_text(self@),
    {
        let negative_score = self.bits >= SIGN_BIT;
        let size: u32 = if negative_score { self.bits - SIGN_BIT } else { self.bits };
        let mut out = String::new();
        if size > INFINITY_BITS {
            out.append("NaN");
            return out;
        }
        if negative_score {
            out.append("-");
        }
        if size == INFINITY_BITS {
            out.append("inf");
            return out;
        }
        let (whole, fraction) = rounded_thousandths(size);
        text::push_decimal(&mut out, whole);
        out.append(".");
        text::push_digit(&mut out, (fraction / 100) as u8);
        text::push_digit(&mut out, (fraction / 10 % 10) as u8);
        text::push_digit(&mut out, (fraction % 10) as u8);
        proof {
            let t = thousandths(size as nat);
            lemma_fundamental_div_mod_converse(t as int, 1000, whole as int, fraction as int);
        }
        out
    }
}

} // verus!
