//! The layout of a scaled number: which scale step, how many digits before
//! and behind the decimal point.

use crate::suffix::{chosen_exp, select_exp_level, suffix_of_exp, Suffix};
use vstd::prelude::*;
use vstd::string::*;

verus! {

/// The level of a magnitude with the given decimal exponent: the exponent
/// of the highest power of one thousand that it reaches. The division
/// rounds down, also below zero.
pub open spec fn level_of(decimal_exponent: int) -> int {
    decimal_exponent / 3
}

/// The number of digits before the decimal point of a magnitude with the
/// given decimal exponent once it is divided by one thousand to `exp_level`;
/// a magnitude below one still has one digit there.
pub open spec fn integer_digits(decimal_exponent: int, exp_level: int) -> nat {
    if decimal_exponent - 3 * exp_level >= 0 {
        (decimal_exponent - 3 * exp_level + 1) as nat
    } else {
        1
    }
}

/// The digits to show behind the decimal point of a number whose integer
/// part has `digits` digits: what the width leaves after them and the point.
pub open spec fn fraction_width(min_width: nat, digits: nat) -> nat {
    if min_width - digits > 1 {
        (min_width - digits - 1) as nat
    } else {
        0
    }
}

/// Whether a point without digits behind it fills the one place left.
pub open spec fn trailing_point(min_width: nat, digits: nat) -> bool {
    min_width - digits == 1
}

/// How a number is laid out.
#[derive(Debug, Clone, Copy, PartialEq, Eq, Structural)]
pub struct NumberLayout {
    /// The power of one thousand to divide the number by.
    pub exp_level: i32,
    /// The scale step to write behind it.
    pub suffix: Suffix,
    /// The length of the integer part of the divided number.
    pub digits: usize,
    /// The number of digits to write behind the decimal point.
    pub precision: usize,
    /// Whether a point without digits behind it follows the integer part.
    pub trailing_point: bool,
}

/// The layout of a number whose magnitude has the given decimal exponent,
/// in a width of `min_width` and with no scale step below `floor`.
pub open spec fn number_layout(decimal_exponent: int, min_width: nat, floor: Suffix) -> NumberLayout {
    let exp_level = chosen_exp(level_of(decimal_exponent), floor);
    let digits = integer_digits(decimal_exponent, exp_level);
    NumberLayout {
        exp_level: exp_level as i32,
        suffix: suffix_of_exp(exp_level),
        digits: digits as usize,
        precision: fraction_width(min_width, digits) as usize,
        trailing_point: trailing_point(min_width, digits),
    }
}

/// A laid-out number as it is shown: its digits, the point where it fills
/// the one place left, and the scale step.
pub open spec fn number_text(mantissa: Seq<char>, layout: NumberLayout) -> Seq<char> {
    mantissa + (if layout.trailing_point {
        seq!['.']
    } else {
        Seq::<char>::empty()
    }) + layout.suffix.token()
}

/// The level of a magnitude with the given decimal exponent.
pub fn magnitude_level(decimal_exponent: i32) -> (level: i32)
    ensures
        level == level_of(decimal_exponent as int),
{
    if decimal_exponent >= 0 {
        decimal_exponent / 3
    } else {
        let below: u32 = (0 - (decimal_exponent as i64)) as u32;
        let thirds: u32 = (below - 1) / 3 + 1;
        (0 - (thirds as i64)) as i32
    }
}

/// The number of digits to ask for behind the decimal point.
pub fn fraction_digits(min_width: usize, digits: usize) -> (precision: usize)
    ensures
        precision == fraction_width(min_width as nat, digits as nat),
{
    if min_width > digits && min_width - digits > 1 {
        min_width - digits - 1
    } else {
        0
    }
}

/// Lays out a number whose magnitude has the given decimal exponent, the
/// integer part of its decimal logarithm rounded down.
pub fn lay_out(decimal_exponent: i32, min_width: usize, min_suffix: &Suffix) -> (layout:
    NumberLayout)
    ensures
        layout == number_layout(decimal_exponent as int, min_width as nat, *min_suffix),
        layout.suffix.exp() == layout.exp_level,
        layout.digits >= 1,
{
    let exp_level = select_exp_level(magnitude_level(decimal_exponent), min_suffix);
    let over: i64 = (decimal_exponent as i64) - 3 * (exp_level as i64);
    let digits: usize = if over >= 0 {
        (over + 1) as usize
    } else {
        1
    };
    NumberLayout {
        exp_level,
        suffix: Suffix::from_exp_level(exp_level),
        digits,
        precision: fraction_digits(min_width, digits),
        trailing_point: min_width > digits && min_width - digits == 1,
    }
}

/// Puts a laid-out number together. `mantissa` is the number, divided by
/// one thousand to `layout.exp_level` and written with `layout.precision`
/// digits behind the point.
pub fn format_number(mantissa: &str, layout: &NumberLayout) -> (text: String)
    ensures
        text@ == number_text(mantissa@, *layout),
{
    let mut text = mantissa.to_owned();
    if layout.trailing_point {
        text.append(".");
        proof {
            reveal_strlit(".");
            assert("."@ =~= seq!['.']);
        }
    } else {
        assert(text@ + Seq::<char>::empty() =~= text@);
    }
    let token = layout.suffix.to_string();
    text.append(token.as_str());
    text
}

/// The digits behind the point are what the width leaves after the integer
/// part and the point, and none where it leaves nothing; a point without
/// digits stands exactly where one place is left. So a number whose integer
/// part fits into a width of one or more fills that width exactly.
pub proof fn lemma_fraction_fills_width(decimal_exponent: int, min_width: nat, floor: Suffix)
    requires
        min_width >= 1,
    ensures
        ({
            let digits = integer_digits(
                decimal_exponent,
                chosen_exp(level_of(decimal_exponent), floor),
            );
            let fraction = fraction_width(min_width, digits);
            let point = trailing_point(min_width, digits);
            &&& digits >= 1
            &&& digits + 1 < min_width ==> fraction == min_width - digits - 1 && !point
            &&& digits + 1 == min_width ==> fraction == 0 && point
            &&& digits >= min_width ==> fraction == 0 && !point
        }),
{
}

/// The length of a laid-out number whose mantissa has the integer digits
/// and the fraction digits that the layout asks for: the width, or the
/// integer part where that is longer, and the scale step behind it.
pub proof fn lemma_number_length(mantissa: Seq<char>, layout: NumberLayout, min_width: nat)
    requires
        min_width >= 1,
        layout.digits >= 1,
        layout.precision == fraction_width(min_width, layout.digits as nat),
        layout.trailing_point == trailing_point(min_width, layout.digits as nat),
        mantissa.len() == layout.digits + (if layout.precision > 0 {
            layout.precision + 1
        } else {
            0
        }),
    ensures
        number_text(mantissa, layout).len() == (if layout.digits >= min_width {
            layout.digits as nat
        } else {
            min_width
        }) + layout.suffix.token().len(),
{
}

/// A magnitude a thousand times as large has a decimal exponent higher by
/// three. With the same width and floor it is scaled by exactly the next
/// step and keeps the length of its integer part, as long as its level has
/// reached the floor and tera is not reached yet.
pub proof fn lemma_thousandfold_next_suffix(decimal_exponent: int, floor: Suffix)
    requires
        floor.exp() <= level_of(decimal_exponent) < 4,
    ensures
        level_of(decimal_exponent + 3) == level_of(decimal_exponent) + 1,
        chosen_exp(level_of(decimal_exponent + 3), floor) == chosen_exp(
            level_of(decimal_exponent),
            floor,
        ) + 1,
        suffix_of_exp(chosen_exp(level_of(decimal_exponent + 3), floor)).exp() == suffix_of_exp(
            chosen_exp(level_of(decimal_exponent), floor),
        ).exp() + 1,
        integer_digits(decimal_exponent + 3, chosen_exp(level_of(decimal_exponent + 3), floor))
            == integer_digits(decimal_exponent, chosen_exp(level_of(decimal_exponent), floor)),
{
}

/// From tera on, a magnitude a thousand times as large keeps the step tera
/// and has an integer part longer by three digits.
pub proof fn lemma_thousandfold_beyond_tera(decimal_exponent: int, floor: Suffix)
    requires
        level_of(decimal_exponent) >= 4,
    ensures
        suffix_of_exp(chosen_exp(level_of(decimal_exponent), floor)) == Suffix::Tera,
        suffix_of_exp(chosen_exp(level_of(decimal_exponent + 3), floor)) == Suffix::Tera,
        integer_digits(decimal_exponent + 3, chosen_exp(level_of(decimal_exponent + 3), floor))
            == integer_digits(decimal_exponent, chosen_exp(level_of(decimal_exponent), floor))
            + 3,
{
}

/// Ten to the power `k`.
pub open spec fn pow10(k: nat) -> nat
    decreases k,
{
    if k == 0 {
        1
    } else {
        10 * pow10((k - 1) as nat)
    }
}

/// Whether the magnitude `p / q` is at least ten to the power `exponent`.
pub open spec fn reaches_exponent(p: nat, q: nat, exponent: int) -> bool {
    if exponent >= 0 {
        q * pow10(exponent as nat) <= p
    } else {
        q <= p * pow10((-exponent) as nat)
    }
}

/// Whether `exponent` is the decimal exponent of the magnitude `p / q`: the
/// highest power of ten that it reaches.
pub open spec fn has_exponent(p: nat, q: nat, exponent: int) -> bool {
    reaches_exponent(p, q, exponent) && !reaches_exponent(p, q, exponent + 1)
}

proof fn lemma_pow10_three(k: nat)
    ensures
        pow10(k + 3) == 1000 * pow10(k),
{
    assert(pow10(k + 3) == 10 * pow10(k + 2));
    assert(pow10(k + 2) == 10 * pow10(k + 1));
    assert(pow10(k + 1) == 10 * pow10(k));
}

/// A magnitude a thousand times as large reaches exactly the powers of ten
/// three above those that the magnitude itself reaches.
pub proof fn lemma_thousandfold_reaches(p: nat, q: nat, exponent: int)
    ensures
        reaches_exponent(1000 * p, q, exponent + 3) == reaches_exponent(p, q, exponent),
{
    if exponent >= 0 {
        let x = pow10(exponent as nat);
        lemma_pow10_three(exponent as nat);
        assert(q * (1000 * x) == 1000 * (q * x)) by (nonlinear_arith);
    } else if exponent <= -3 {
        let x = pow10((-exponent - 3) as nat);
        lemma_pow10_three((-exponent - 3) as nat);
        assert(p * (1000 * x) == (1000 * p) * x) by (nonlinear_arith);
        if exponent == -3 {
            assert(pow10(0) == 1);
            assert(q * 1 == q && (1000 * p) * 1 == 1000 * p);
        }
    } else {
        assert(pow10(0) == 1);
        assert(pow10(1) == 10);
        assert(pow10(2) == 100);
        assert(p * 10 == 10 * p && p * 100 == 100 * p && q * 10 == 10 * q && q * 100 == 100 * q)
            by (nonlinear_arith);
    }
}

/// A magnitude a thousand times as large has a decimal exponent higher by
/// exactly three.
pub proof fn lemma_thousandfold_exponent(p: nat, q: nat, exponent: int)
    requires
        has_exponent(p, q, exponent),
    ensures
        has_exponent(1000 * p, q, exponent + 3),
{
    lemma_thousandfold_reaches(p, q, exponent);
    lemma_thousandfold_reaches(p, q, exponent + 1);
}

/// Whatever the width, a magnitude `p / q` and the magnitude a thousand
/// times as large are laid out with neighbouring scale steps and integer
/// parts of one length, as long as the smaller one's level has reached the
/// floor and tera is not reached yet; from tera on both are laid out with
/// tera, and the larger one's integer part is longer by three digits.
pub proof fn lemma_thousandfold_layout(p: nat, q: nat, exponent: int, floor: Suffix)
    requires
        has_exponent(p, q, exponent),
        floor.exp() <= level_of(exponent),
    ensures
        has_exponent(1000 * p, q, exponent + 3),
        ({
            let here = chosen_exp(level_of(exponent), floor);
            let there = chosen_exp(level_of(exponent + 3), floor);
            if level_of(exponent) < 4 {
                suffix_of_exp(there).exp() == suffix_of_exp(here).exp() + 1 && integer_digits(
                    exponent + 3,
                    there,
                ) == integer_digits(exponent, here)
            } else {
                suffix_of_exp(there) == Suffix::Tera && suffix_of_exp(here) == Suffix::Tera
                    && integer_digits(exponent + 3, there) == integer_digits(exponent, here) + 3
            }
        }),
{
    lemma_thousandfold_exponent(p, q, exponent);
}

} // verus!
