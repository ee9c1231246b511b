//! What decimal numbers, blank text and the texts of scores are.

use vstd::arithmetic::div_mod::*;
use vstd::arithmetic::mul::*;
use vstd::arithmetic::power2::*;
use vstd::prelude::*;

use crate::score;
use crate::text;

verus! {

/// A number below ten is written with the one digit at its place among the ten digits.
pub proof fn law_decimal_of_one_digit(d: nat)
    requires
        d < 10,
    ensures
        text::decimal(d) == seq!["0123456789"@[d as int]],
{
    reveal_strlit("0123456789");
    assert(text::decimal(d) =~= seq!["0123456789"@[d as int]]);
}

/// Writing a digit behind a number that is not zero multiplies it by ten and adds the
/// digit.
pub proof fn law_decimal_appends_digits(n: nat, d: nat)
    requires
        n > 0,
        d < 10,
    ensures
        text::decimal(10 * n + d) == text::decimal(n) + text::decimal(d),
{
    assert(text::decimal(10 * n + d) =~= text::decimal(n) + text::decimal(d));
}

/// Different numbers are written differently.
pub proof fn law_decimal_is_injective(a: nat, b: nat)
    requires
        text::decimal(a) == text::decimal(b),
    ensures
        a == b,
    decreases a,
{
    let (x, y) = (text::decimal(a), text::decimal(b));
    lemma_decimal_is_not_empty(a / 10);
    lemma_decimal_is_not_empty(b / 10);
    assert(x.last() == y.last());
    assert(a % 10 == b % 10);
    if a >= 10 && b >= 10 {
        assert(x.drop_last() =~= text::decimal(a / 10));
        assert(y.drop_last() =~= text::decimal(b / 10));
        law_decimal_is_injective(a / 10, b / 10);
    }
}

proof fn lemma_decimal_is_not_empty(n: nat)
    ensures
        text::decimal(n).len() > 0,
{
}

/// White space is the twenty-five characters that Unicode calls so.
pub proof fn law_white_space(c: char)
    ensures
        text::is_white_space(c) <==> {
            ||| c == '\u{9}'
            ||| c == '\u{a}'
            ||| c == '\u{b}'
            ||| c == '\u{c}'
            ||| c == '\u{d}'
            ||| c == '\u{20}'
            ||| c == '\u{85}'
            ||| c == '\u{a0}'
            ||| c == '\u{1680}'
            ||| c == '\u{2000}'
            ||| c == '\u{2001}'
            ||| c == '\u{2002}'
            ||| c == '\u{2003}'
            ||| c == '\u{2004}'
            ||| c == '\u{2005}'
            ||| c == '\u{2006}'
            ||| c == '\u{2007}'
            ||| c == '\u{2008}'
            ||| c == '\u{2009}'
            ||| c == '\u{200a}'
            ||| c == '\u{2028}'
            ||| c == '\u{2029}'
            ||| c == '\u{202f}'
            ||| c == '\u{205f}'
            ||| c == '\u{3000}'
        },
{
}

/// The empty text is blank, a single character is blank when it is white space, and two
/// texts together are blank when both are.
pub proof fn law_blank_text(a: Seq<char>, b: Seq<char>, c: char)
    ensures
        text::blank(Seq::empty()),
        text::blank(seq![c]) <==> text::is_white_space(c),
        text::blank(a + b) <==> text::blank(a) && text::blank(b),
{
    assert(seq![c][0] == c);
    if text::blank(a + b) {
        assert forall|i: int| 0 <= i < a.len() implies text::is_white_space(#[trigger] a[i]) by {
            assert((a + b)[i] == a[i]);
        }
        assert forall|i: int| 0 <= i < b.len() implies text::is_white_space(#[trigger] b[i]) by {
            assert((a + b)[a.len() + i] == b[i]);
        }
    }
}

/// Below the second exponent, a bit pattern is its own value in units.
pub proof fn law_small_scores(magnitude: nat)
    requires
        magnitude < 0x100_0000,
    ensures
        score::units(magnitude) == magnitude,
{
    lemma2_to64();
    lemma_fundamental_div_mod(magnitude as int, 0x80_0000);
    if magnitude >= 0x80_0000 {
        lemma_mul_basics(magnitude as int);
    }
}

/// The next exponent doubles the value.
pub proof fn law_next_exponent_doubles(magnitude: nat)
    requires
        magnitude >= 0x80_0000,
    ensures
        score::units(magnitude + 0x80_0000) == 2 * score::units(magnitude),
{
    let e = magnitude / 0x80_0000;
    let f = magnitude % 0x80_0000;
    assert((magnitude + 0x80_0000) / 0x80_0000 == e + 1);
    assert((magnitude + 0x80_0000) % 0x80_0000 == f);
    lemma_pow2_unfold(e);
    assert((0x80_0000 + f) * pow2(e) == 2 * ((0x80_0000 + f) * pow2((e - 1) as nat)))
        by (nonlinear_arith)
        requires
            pow2(e) == 2 * pow2((e - 1) as nat),
    ;
}

/// The sign bit negates a value and changes nothing else.
pub proof fn law_sign_bit(bits: u32)
    requires
        bits < 0x8000_0000,
    ensures
        score::signed_units(bits) == score::units(bits as nat),
        score::signed_units((bits + 0x8000_0000) as u32) == -score::units(bits as nat),
        score::not_a_number((bits + 0x8000_0000) as u32) == score::not_a_number(bits),
{
}

/// A score is not a number when its exponent field is full and its fraction is not zero.
pub proof fn law_not_a_number(bits: u32)
    ensures
        score::not_a_number(bits) <==> (bits as nat / 0x80_0000) % 0x100 == 0xff && bits as nat
            % 0x80_0000 != 0,
{
}

/// One score is at least another when both are numbers and its value is not below the
/// other's.
pub proof fn law_score_order(a: u32, b: u32)
    ensures
        score::score_at_least(a, b) <==> {
            &&& !score::not_a_number(a)
            &&& !score::not_a_number(b)
            &&& !(score::signed_units(a) < score::signed_units(b))
        },
{
}

/// Whatever number of thousandths is nearest to a score that is not negative, the even
/// one of two that are equally near, is what the text of the score shows: its whole part,
/// a point, and its last three digits.
pub proof fn law_text_of_a_score(bits: u32, t: nat)
    requires
        bits < 0x7f80_0000,
        2 * (t * pow2(149)) <= 2 * (score::units(bits as nat) * 1000) + pow2(149),
        2 * (score::units(bits as nat) * 1000) <= 2 * (t * pow2(149)) + pow2(149),
        (2 * (t * pow2(149)) == 2 * (score::units(bits as nat) * 1000) + pow2(149) || 2 * (
        score::units(bits as nat) * 1000) == 2 * (t * pow2(149)) + pow2(149)) ==> t % 2 == 0,
    ensures
        score::fixed_text(bits) == text::decimal(t / 1000) + "."@ + text::decimal(
            1000 + t % 1000,
        ).subrange(1, 4),
{
    let n = score::units(bits as nat) * 1000;
    let d = pow2(149);
    lemma_pow2_pos(149);
    lemma_nearest_is_unique(n, d, t);
    lemma_three_digits(t % 1000);
    assert(Seq::<char>::empty() + text::decimal(t / 1000) =~= text::decimal(t / 1000));
}

proof fn lemma_nearest_is_unique(n: nat, d: nat, t: nat)
    requires
        d > 0,
        2 * (t * d) <= 2 * n + d,
        2 * n <= 2 * (t * d) + d,
        (2 * (t * d) == 2 * n + d || 2 * n == 2 * (t * d) + d) ==> t % 2 == 0,
    ensures
        score::round_half_even(n, d) == t,
{
    let q = n / d;
    let r = n % d;
    lemma_fundamental_div_mod(n as int, d as int);
    lemma_mod_bound(n as int, d as int);
    lemma_mul_is_commutative(q as int, d as int);
    if t < q {
        assert((t + 1) * d <= q * d) by (nonlinear_arith)
            requires
                t + 1 <= q,
        ;
        assert((t + 1) * d == t * d + d) by (nonlinear_arith);
    } else if t > q + 1 {
        assert((q + 2) * d <= t * d) by (nonlinear_arith)
            requires
                q + 2 <= t,
        ;
        assert((q + 2) * d == q * d + 2 * d) by (nonlinear_arith);
    } else if t == q + 1 {
        assert((q + 1) * d == q * d + d) by (nonlinear_arith);
    }
}

proof fn lemma_three_digits(n: nat)
    requires
        n < 1000,
    ensures
        score::three_digits(n) == text::decimal(1000 + n).subrange(1, 4),
{
    reveal_with_fuel(text::decimal, 5);
    assert(score::three_digits(n) =~= text::decimal(1000 + n).subrange(1, 4));
}

/// A negative score is written with a minus sign before the text of its absolute value;
/// infinity and what is not a number have words of their own.
pub proof fn law_texts_of_signs_and_words(bits: u32)
    ensures
        bits <= 0x7f80_0000 ==> score::fixed_text((bits + 0x8000_0000) as u32) == "-"@
            + score::fixed_text(bits),
        bits == 0x7f80_0000 ==> score::fixed_text(bits) == "inf"@,
        score::not_a_number(bits) ==> score::fixed_text(bits) == "NaN"@,
{
    if bits < 0x7f80_0000 {
        let t = score::thousandths(bits as nat);
        let (a, b) = (text::decimal(t / 1000), score::three_digits(t % 1000));
        assert("-"@ + (Seq::<char>::empty() + a + "."@ + b) =~= "-"@ + a + "."@ + b);
    } else {
        assert(Seq::<char>::empty() + "inf"@ =~= "inf"@);
    }
}

} // verus!
