//! Building text: padding, and integers written in decimal and hexadecimal.

use vstd::prelude::*;

verus! {

/// Appends one character to a string. This is `String::push` of the standard
/// library, which is trusted to add exactly `c` at the end and to leave the
/// characters before it as they were.
#[verifier::external_body]
pub(crate) fn push_char(text: &mut String, c: char)
    ensures
        final(text)@ == old(text)@.push(c),
{
    text.push(c)
}

/// Whether two string slices hold the same characters.
pub fn same_text(a: &str, b: &str) -> (same: bool)
    ensures
        same == (a@ == b@),
{
    a.to_owned() == b.to_owned()
}

/// `count` copies of `c`.
pub open spec fn repeated(c: char, count: nat) -> Seq<char> {
    Seq::new(count, |i: int| c)
}

/// Appends `count` copies of `c` to `text`.
pub fn pad(text: &mut String, count: usize, c: char)
    ensures
        final(text)@ == old(text)@ + repeated(c, count as nat),
{
    let mut done: usize = 0;
    while done < count
        invariant
            done <= count,
            text@ == old(text)@ + repeated(c, done as nat),
        decreases count - done,
    {
        push_char(text, c);
        done = done + 1;
        assert(text@ =~= old(text)@ + repeated(c, done as nat));
    }
}

/// The character that shows one digit below sixteen.
pub open spec fn digit_char(d: nat) -> char {
    if d == 0 {
        '0'
    } else if d == 1 {
        '1'
    } else if d == 2 {
        '2'
    } else if d == 3 {
        '3'
    } else if d == 4 {
        '4'
    } else if d == 5 {
        '5'
    } else if d == 6 {
        '6'
    } else if d == 7 {
        '7'
    } else if d == 8 {
        '8'
    } else if d == 9 {
        '9'
    } else if d == 10 {
        'a'
    } else if d == 11 {
        'b'
    } else if d == 12 {
        'c'
    } else if d == 13 {
        'd'
    } else if d == 14 {
        'e'
    } else {
        'f'
    }
}

/// The digits of `n` in the given base, most significant first, without
/// leading zeros; zero is written as one digit.
pub open spec fn radix_digits(n: nat, base: nat) -> Seq<char>
    decreases n,
    via radix_digits_shrink
{
    if base < 2 || n < base {
        seq![digit_char(n)]
    } else {
        radix_digits(n / base, base).push(digit_char(n % base))
    }
}

#[via_fn]
proof fn radix_digits_shrink(n: nat, base: nat) {
    if !(base < 2 || n < base) {
        assert(n / base < n) by (nonlinear_arith)
            requires
                base >= 2,
                n >= base,
        ;
    }
}

/// An integer in decimal, with a minus sign before a negative one.
pub open spec fn decimal_text(v: int) -> Seq<char> {
    if v < 0 {
        seq!['-'] + radix_digits((-v) as nat, 10)
    } else {
        radix_digits(v as nat, 10)
    }
}

/// `n` in lower-case hexadecimal, with zeros in front up to `width` digits.
pub open spec fn hex_text(n: nat, width: nat) -> Seq<char> {
    let digits = radix_digits(n, 16);
    if digits.len() < width {
        repeated('0', (width - digits.len()) as nat) + digits
    } else {
        digits
    }
}

fn digit(d: u8) -> (c: char)
    requires
        d < 16,
    ensures
        c == digit_char(d as nat),
{
    if d == 0 {
        '0'
    } else if d == 1 {
        '1'
    } else if d == 2 {
        '2'
    } else if d == 3 {
        '3'
    } else if d == 4 {
        '4'
    } else if d == 5 {
        '5'
    } else if d == 6 {
        '6'
    } else if d == 7 {
        '7'
    } else if d == 8 {
        '8'
    } else if d == 9 {
        '9'
    } else if d == 10 {
        'a'
    } else if d == 11 {
        'b'
    } else if d == 12 {
        'c'
    } else if d == 13 {
        'd'
    } else if d == 14 {
        'e'
    } else {
        'f'
    }
}

/// The digits of `n` in base `base`, least significant first.
fn low_digits(n: u128, base: u8) -> (low: Vec<char>)
    requires
        2 <= base <= 16,
    ensures
        low@.reverse() == radix_digits(n as nat, base as nat),
        low@.len() >= 1,
{
    let wide: u128 = base as u128;
    let mut low: Vec<char> = Vec::new();
    let mut rest: u128 = n;
    while rest >= wide
        invariant
            wide == base,
            2 <= base <= 16,
            radix_digits(n as nat, base as nat) == radix_digits(rest as nat, base as nat)
                + low@.reverse(),
        decreases rest,
    {
        let d: u8 = (rest % wide) as u8;
        let ghost before = low@;
        low.push(digit(d));
        proof {
            let c = digit_char(d as nat);
            assert(low@.reverse() =~= seq![c] + before.reverse());
            assert(radix_digits(rest as nat, base as nat) == radix_digits(
                (rest / wide) as nat,
                base as nat,
            ).push(c));
            assert(radix_digits((rest / wide) as nat, base as nat).push(c) + before.reverse()
                =~= radix_digits((rest / wide) as nat, base as nat) + low@.reverse());
        }
        rest = rest / wide;
    }
    let ghost before = low@;
    low.push(digit(rest as u8));
    proof {
        let c = digit_char(rest as nat);
        assert(low@.reverse() =~= seq![c] + before.reverse());
        assert(radix_digits(rest as nat, base as nat) =~= seq![c]);
    }
    low
}

/// Appends to `text` the characters of `low`, last first.
fn push_reversed(text: &mut String, low: &Vec<char>)
    ensures
        final(text)@ == old(text)@ + low@.reverse(),
{
    let mut left: usize = low.len();
    while left > 0
        invariant
            left <= low@.len(),
            text@ == old(text)@ + low@.reverse().subrange(0, low@.len() - left),
        decreases left,
    {
        left = left - 1;
        push_char(text, low[left]);
        assert(text@ =~= old(text)@ + low@.reverse().subrange(0, low@.len() - left));
    }
    assert(low@.reverse().subrange(0, low@.len() as int) =~= low@.reverse());
}

/// Writes an integer in decimal.
pub fn decimal(v: i128) -> (text: String)
    ensures
        text@ == decimal_text(v as int),
{
    let mut text = String::new();
    if v < 0 {
        push_char(&mut text, '-');
        let magnitude: u128 = if v == i128::MIN {
            0x8000_0000_0000_0000_0000_0000_0000_0000u128
        } else {
            (0 - v) as u128
        };
        let low = low_digits(magnitude, 10);
        push_reversed(&mut text, &low);
        assert(text@ =~= decimal_text(v as int));
    } else {
        let low = low_digits(v as u128, 10);
        push_reversed(&mut text, &low);
        assert(text@ =~= decimal_text(v as int));
    }
    text
}

/// Writes `n` in lower-case hexadecimal, with zeros in front up to `width`
/// digits.
pub fn hex(n: usize, width: usize) -> (text: String)
    ensures
        text@ == hex_text(n as nat, width as nat),
{
    let mut text = String::new();
    let low = low_digits(n as u128, 16);
    if low.len() < width {
        pad(&mut text, width - low.len(), '0');
    }
    push_reversed(&mut text, &low);
    assert(text@ =~= hex_text(n as nat, width as nat));
    text
}

} // verus!
