//! Rates: a sum of samples per unit of time, kept exact.

use crate::span::{duration_nanos, nanos_of};
use std::time::Duration;
use vstd::prelude::*;
use vstd::string::StringExecFns;

verus! {

/// One per nanosecond in thousandths per second: 10^12.
pub const THOUSANDTHS: u128 = 1_000_000_000_000;

/// One per nanosecond in hundredths per second: 10^11.
pub const HUNDREDTHS: u128 = 100_000_000_000;

/// A rate: `amount` in every `nanos` nanoseconds, which is
/// `amount * 10^9 / nanos` per second.
#[derive(Debug, Clone, Copy)]
pub struct Rate {
    /// The sum of the samples.
    pub amount: i64,
    /// The width of the window they fell in, in nanoseconds.
    pub nanos: u128,
}

/// Values that can be read as a rate over a length of time.
pub trait ToRate: Sized {
    /// What the rate is given as.
    type Output;

    /// The rate that `self` in every `duration` makes.
    spec fn rate_over(self, duration: Duration) -> Self::Output;

    /// The rate that `self` in every `duration` makes.
    fn to_rate(self, duration: Duration) -> (rate: Self::Output)
        ensures
            rate == self.rate_over(duration),
    ;
}

impl ToRate for i32 {
    type Output = Rate;

    open spec fn rate_over(self, duration: Duration) -> Rate {
        Rate { amount: self as i64, nanos: duration_nanos(duration) as u128 }
    }

    fn to_rate(self, duration: Duration) -> (rate: Rate) {
        Rate { amount: self as i64, nanos: nanos_of(duration) }
    }
}

impl ToRate for u32 {
    type Output = Rate;

    open spec fn rate_over(self, duration: Duration) -> Rate {
        Rate { amount: self as i64, nanos: duration_nanos(duration) as u128 }
    }

    fn to_rate(self, duration: Duration) -> (rate: Rate) {
        Rate { amount: self as i64, nanos: nanos_of(duration) }
    }
}

/// The quotient `num / den` as a whole number, rounded to the nearest one,
/// and to the even one of two that are equally near.
pub open spec fn nearest(num: nat, den: nat) -> nat
    recommends
        den > 0,
{
    let below = num / den;
    let rest = num % den;
    if 2 * rest < den || (2 * rest == den && below % 2 == 0) {
        below
    } else {
        below + 1
    }
}

/// The character of the decimal digit `d`.
pub open spec fn digit(d: nat) -> char
    recommends
        d < 10,
{
    if d == 0 {
        '0'
    } else if d == 1 {
        '1'
    } else if d == 2 {
        '2'
    } else if d == 3 {
        '3'
    } else if d == 4 {
        '4'
    } else if d == 5 {
        '5'
    } else if d == 6 {
        '6'
    } else if d == 7 {
        '7'
    } else if d == 8 {
        '8'
    } else {
        '9'
    }
}

/// The decimal digits of `n`, without leading zeros.
pub open spec fn decimal(n: nat) -> Seq<char>
    decreases n,
{
    if n < 10 {
        seq![digit(n)]
    } else {
        decimal(n / 10).push(digit(n % 10))
    }
}

/// `thousandths` as a decimal number with three places after the point.
pub open spec fn three_places(thousandths: nat) -> Seq<char> {
    decimal(thousandths / 1000) + seq![
        '.',
        digit(thousandths / 100 % 10),
        digit(thousandths / 10 % 10),
        digit(thousandths % 10),
    ]
}

/// `hundredths` as a decimal number with two places after the point.
pub open spec fn two_places(hundredths: nat) -> Seq<char> {
    decimal(hundredths / 100) + seq!['.', digit(hundredths / 10 % 10), digit(hundredths % 10)]
}

/// The sign that goes before the size of a negative number.
pub open spec fn sign(negative: bool) -> Seq<char> {
    if negative {
        seq!['-']
    } else {
        Seq::empty()
    }
}

impl Rate {
    /// The size of the amount, whatever its sign.
    pub open spec fn magnitude(self) -> nat {
        if self.amount < 0 {
            (-self.amount) as nat
        } else {
            self.amount as nat
        }
    }

    /// The size of the rate in parts of which one per nanosecond makes
    /// `parts`, rounded to the nearest part, for a window that has a width.
    pub open spec fn scaled(self, parts: nat) -> nat
        recommends
            self.nanos > 0,
    {
        nearest(self.magnitude() * parts, self.nanos as nat)
    }

    /// The rate over a window of no width: without bound, or no number where
    /// the amount is zero too.
    pub open spec fn unbounded(self) -> Seq<char>
        recommends
            self.nanos == 0,
    {
        if self.amount > 0 {
            seq!['i', 'n', 'f']
        } else if self.amount < 0 {
            seq!['-', 'i', 'n', 'f']
        } else {
            seq!['N', 'a', 'N']
        }
    }

    /// The rate per second as text with three decimal places, such as
    /// `2.500`.
    pub open spec fn text(self) -> Seq<char> {
        if self.nanos == 0 {
            self.unbounded()
        } else {
            sign(self.amount < 0) + three_places(self.scaled(THOUSANDTHS as nat))
        }
    }

    /// The amount, and in brackets the rate per second with two decimal
    /// places, such as `20 (2.50/s)`.
    pub open spec fn long_text(self) -> Seq<char> {
        let rate = if self.nanos == 0 {
            self.unbounded()
        } else {
            sign(self.amount < 0) + two_places(self.scaled(HUNDREDTHS as nat))
        };
        sign(self.amount < 0) + decimal(self.magnitude()) + seq![' ', '('] + rate + seq![
            '/',
            's',
            ')',
        ]
    }

    /// The size of the amount, whatever its sign.
    fn size(&self) -> (magnitude: u128)
        ensures
            magnitude == self.magnitude(),
            magnitude <= 0x8000_0000_0000_0000,
    {
        if self.amount < 0 {
            (-(self.amount as i128)) as u128
        } else {
            self.amount as u128
        }
    }

    /// The size of the rate in parts of which one per nanosecond makes
    /// `parts`.
    fn scale(&self, parts: u128) -> (scaled: u128)
        requires
            self.nanos > 0,
            parts <= THOUSANDTHS,
        ensures
            scaled == self.scaled(parts as nat),
    {
        let magnitude: u128 = self.size();
        assert(magnitude * parts <= 0x8000_0000_0000_0000 * THOUSANDTHS) by (nonlinear_arith)
            requires
                magnitude <= 0x8000_0000_0000_0000,
                parts <= THOUSANDTHS,
        ;
        let num: u128 = magnitude * parts;
        let below: u128 = num / self.nanos;
        let rest: u128 = num % self.nanos;
        let short: u128 = self.nanos - rest;
        if rest < short || (rest == short && below % 2 == 0) {
            below
        } else {
            below + 1
        }
    }

    /// Appends the rate over a window of no width to `text`.
    fn push_unbounded(&self, text: &mut String)
        ensures
            final(text)@ == old(text)@ + self.unbounded(),
    {
        proof {
            reveal_strlit("inf");
            reveal_strlit("-inf");
            reveal_strlit("NaN");
        }
        if self.amount > 0 {
            text.append("inf");
        } else if self.amount < 0 {
            text.append("-inf");
        } else {
            text.append("NaN");
        }
        assert(text@ =~= old(text)@ + self.unbounded());
    }

    /// The rate per second as text with three decimal places, such as
    /// `2.500`.
    pub fn to_string(&self) -> (text: String)
        ensures
            text@ == self.text(),
    {
        let mut text = String::new();
        if self.nanos == 0 {
            self.push_unbounded(&mut text);
        } else {
            let thousandths: u128 = self.scale(THOUSANDTHS);
            push_sign(&mut text, self.amount < 0);
            push_decimal(&mut text, thousandths / 1000);
            push_point(&mut text);
            push_digit(&mut text, (thousandths / 100 % 10) as u8);
            push_digit(&mut text, (thousandths / 10 % 10) as u8);
            push_digit(&mut text, (thousandths % 10) as u8);
            assert(text@ =~= sign(self.amount < 0) + three_places(thousandths as nat));
        }
        text
    }

    /// The amount, and in brackets the rate per second with two decimal
    /// places, such as `20 (2.50/s)`.
    pub fn to_long_string(&self) -> (text: String)
        ensures
            text@ == self.long_text(),
    {
        proof {
            reveal_strlit(" (");
            reveal_strlit("/s)");
        }
        let mut text = String::new();
        push_sign(&mut text, self.amount < 0);
        push_decimal(&mut text, self.size());
        text.append(" (");
        let ghost head = text@;
        if self.nanos == 0 {
            self.push_unbounded(&mut text);
        } else {
            let hundredths: u128 = self.scale(HUNDREDTHS);
            push_sign(&mut text, self.amount < 0);
            push_decimal(&mut text, hundredths / 100);
            push_point(&mut text);
            push_digit(&mut text, (hundredths / 10 % 10) as u8);
            push_digit(&mut text, (hundredths % 10) as u8);
            assert(text@ =~= head + (sign(self.amount < 0) + two_places(hundredths as nat)));
        }
        text.append("/s)");
        assert(text@ =~= self.long_text());
        text
    }
}

/// Appends a minus sign to `text` for a negative number.
fn push_sign(text: &mut String, negative: bool)
    ensures
        final(text)@ == old(text)@ + sign(negative),
{
    proof {
        reveal_strlit("-");
    }
    if negative {
        text.append("-");
    }
    assert(text@ =~= old(text)@ + sign(negative));
}

/// Appends the decimal point to `text`.
fn push_point(text: &mut String)
    ensures
        final(text)@ == old(text)@.push('.'),
{
    proof {
        reveal_strlit(".");
    }
    text.append(".");
    assert(text@ =~= old(text)@.push('.'));
}

/// Appends the decimal digit `d` to `text`.
fn push_digit(text: &mut String, d: u8)
    requires
        d < 10,
    ensures
        final(text)@ == old(text)@.push(digit(d as nat)),
{
    text.append(digit_str(d));
    assert(text@ =~= old(text)@.push(digit(d as nat)));
}

/// The decimal digit `d` as text.
fn digit_str(d: u8) -> (text: &'static str)
    requires
        d < 10,
    ensures
        text@ == seq![digit(d as nat)],
{
    proof {
        reveal_strlit("0");
        reveal_strlit("1");
        reveal_strlit("2");
        reveal_strlit("3");
        reveal_strlit("4");
        reveal_strlit("5");
        reveal_strlit("6");
        reveal_strlit("7");
        reveal_strlit("8");
        reveal_strlit("9");
    }
    let text = match d {
        0 => "0",
        1 => "1",
        2 => "2",
        3 => "3",
        4 => "4",
        5 => "5",
        6 => "6",
        7 => "7",
        8 => "8",
        _ => "9",
    };
    assert(text@ =~= seq![digit(d as nat)]);
    text
}

/// Appends the decimal digits of `n` to `text`.
fn push_decimal(text: &mut String, n: u128)
    ensures
        final(text)@ == old(text)@ + decimal(n as nat),
    decreases n,
{
    if n >= 10 {
        push_decimal(text, n / 10);
    }
    push_digit(text, (n % 10) as u8);
    assert(text@ =~= old(text)@ + decimal(n as nat));
}

} // verus!
