//! What a run writes: the banner before the taps, and after them the
//! tempo and the number of presses.
//!
//! The tempo is the tap count divided by the minutes from the first tap to
//! the last. All of it is computed on integers, and rounded once, to the
//! nearest figure that is shown.

use vstd::prelude::*;
use vstd::string::*;
use vstd::arithmetic::div_mod::lemma_fundamental_div_mod;
use crate::decimal::{decimal, digit_char, push_decimal, push_digit};

verus! {

/// The three lines that tell the user what to do.
pub const BANNER: &'static str =
    "Press any character key to tap\nTiming is from the first tap to the last\nPress esc to finish\n";

/// The microseconds in a minute.
pub const MICROS_PER_MINUTE: u128 = 60_000_000;

/// The microseconds in a tenth of a second.
pub const MICROS_PER_TENTH: u128 = 100_000;

/// The figures of a finished session: the taps that followed the first one
/// and the microseconds from the first tap to the last.
#[derive(Clone, Copy, Debug, PartialEq, Eq, Structural)]
pub struct Tally {
    pub count: u32,
    pub micros: u128,
}

/// A tempo in beats per minute.
#[derive(Clone, Copy, Debug, PartialEq, Eq, Structural)]
pub enum Tempo {
    /// No taps in no time: the quotient of zero by zero.
    Undefined,
    /// Taps in no time.
    Infinite,
    /// So many hundredths of a beat per minute.
    Hundredths(u128),
}

/// The quotient of `num` by `den`, rounded to the nearest whole number;
/// where it lies half way between two, to the even one.
pub open spec fn rounded(num: nat, den: nat) -> nat
    recommends
        den > 0,
{
    let quotient = num / den;
    let rest = num % den;
    if 2 * rest < den || (2 * rest == den && quotient % 2 == 0) {
        quotient
    } else {
        quotient + 1
    }
}

/// The tempo of `count` taps in `micros` microseconds, in hundredths of a
/// beat per minute.
pub open spec fn hundredths(count: nat, micros: nat) -> nat
    recommends
        micros > 0,
{
    rounded(count * 100 * MICROS_PER_MINUTE as nat, micros)
}

/// A time in tenths of a second.
pub open spec fn tenths(micros: nat) -> nat {
    rounded(micros, MICROS_PER_TENTH as nat)
}

/// A number of hundredths, written with two decimal places.
pub open spec fn two_places(value: nat) -> Seq<char> {
    decimal(value / 100) + seq!['.', digit_char(value / 10 % 10), digit_char(value % 10)]
}

/// A number of tenths, written with one decimal place.
pub open spec fn one_place(value: nat) -> Seq<char> {
    decimal(value / 10) + seq!['.', digit_char(value % 10)]
}

/// The first line of the result: the tempo with two decimal places, or
/// `NaN` or `inf` where no time has passed.
pub open spec fn tempo_line(tally: Tally) -> Seq<char> {
    (if tally.micros == 0 {
        if tally.count == 0 {
            "NaN"@
        } else {
            "inf"@
        }
    } else {
        two_places(hundredths(tally.count as nat, tally.micros as nat))
    }) + " BPM"@
}

/// The second line of the result: the count, and the seconds with one
/// decimal place.
pub open spec fn presses_line(tally: Tally) -> Seq<char> {
    decimal(tally.count as nat) + " presses in "@ + one_place(tenths(tally.micros as nat)) + "s"@
}

/// The rounded quotient is nearest to the exact one: it is off by half at
/// most, and by a whole half only where it is even.
pub proof fn law_rounded_is_nearest(num: nat, den: nat)
    requires
        den > 0,
    ensures
        -(den as int) <= 2 * (rounded(num, den) * den - num) <= den,
        2 * (rounded(num, den) * den - num) == den || 2 * (num - rounded(num, den) * den) == den
            ==> rounded(num, den) % 2 == 0,
        num % den == 0 ==> rounded(num, den) == num / den,
{
    let quotient = num / den;
    let rest = num % den;
    lemma_fundamental_div_mod(num as int, den as int);
    assert((quotient + 1) * den == quotient * den + den) by (nonlinear_arith);
    assert(den * quotient == quotient * den) by (nonlinear_arith);
}

/// The tempo that is shown is the count divided by the minutes, to the
/// nearest hundredth: `hundredths / 100` differs from
/// `count / (micros / 60_000_000)` by no more than half a hundredth.
pub proof fn law_tempo_is_count_per_minute(count: nat, micros: nat)
    requires
        micros > 0,
    ensures
        -(micros as int) <= 2 * (hundredths(count, micros) * micros - count * 100 * 60_000_000)
            <= micros,
        (count * 100 * 60_000_000) % micros == 0 ==> hundredths(count, micros) == (count * 100
            * 60_000_000) / micros,
{
    law_rounded_is_nearest(count * 100 * MICROS_PER_MINUTE as nat, micros);
}

/// Divides and rounds to the nearest whole number, to the even one of two
/// that are equally near.
fn round_div(num: u128, den: u128) -> (quotient: u128)
    requires
        den > 0,
    ensures
        quotient == rounded(num as nat, den as nat),
{
    let quotient = num / den;
    let rest = num % den;
    let short = den - rest;
    if rest < short || (rest == short && quotient % 2 == 0) {
        quotient
    } else {
        proof {
            lemma_fundamental_div_mod(num as int, den as int);
            assert(den >= 2);
            assert(den * quotient >= 2 * quotient) by (nonlinear_arith)
                requires
                    den >= 2,
                    quotient >= 0,
            ;
        }
        quotient + 1
    }
}

impl Tally {
    /// The tempo: the count divided by the minutes.
    pub fn tempo(&self) -> (tempo: Tempo)
        ensures
            match tempo {
                Tempo::Undefined => self.micros == 0 && self.count == 0,
                Tempo::Infinite => self.micros == 0 && self.count > 0,
                Tempo::Hundredths(value) => self.micros > 0 && value == hundredths(
                    self.count as nat,
                    self.micros as nat,
                ),
            },
    {
        if self.micros == 0 {
            if self.count == 0 {
                Tempo::Undefined
            } else {
                Tempo::Infinite
            }
        } else {
            let count: u128 = self.count as u128;
            Tempo::Hundredths(round_div(count * 100 * MICROS_PER_MINUTE, self.micros))
        }
    }

    /// The time from the first tap to the last, in tenths of a second.
    pub fn tenths(&self) -> (value: u128)
        ensures
            value == tenths(self.micros as nat),
    {
        round_div(self.micros, MICROS_PER_TENTH)
    }

    /// The first line of the result, without a line end.
    pub fn tempo_line(&self) -> (line: String)
        ensures
            line@ == tempo_line(*self),
    {
        let mut line = String::new();
        match self.tempo() {
            Tempo::Undefined => {
                line.append("NaN");
            },
            Tempo::Infinite => {
                line.append("inf");
            },
            Tempo::Hundredths(value) => {
                push_decimal(&mut line, value / 100);
                line.append(".");
                push_digit(&mut line, (value / 10 % 10) as u8);
                push_digit(&mut line, (value % 10) as u8);
                proof {
                    reveal_strlit(".");
                    assert(line@ =~= two_places(value as nat));
                }
            },
        }
        line.append(" BPM");
        assert(line@ =~= tempo_line(*self));
        line
    }

    /// The second line of the result, without a line end.
    pub fn presses_line(&self) -> (line: String)
        ensures
            line@ == presses_line(*self),
    {
        let tenths = self.tenths();
        let mut line = String::new();
        push_decimal(&mut line, self.count as u128);
        line.append(" presses in ");
        push_decimal(&mut line, tenths / 10);
        line.append(".");
        push_digit(&mut line, (tenths % 10) as u8);
        line.append("s");
        proof {
            reveal_strlit(".");
            assert(line@ =~= presses_line(*self));
        }
        line
    }
}

} // verus!
