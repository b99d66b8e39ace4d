//! Speed and accuracy of a session, computed exactly.
//!
//! Time is measured in whole milliseconds and every result is a fraction of
//! two integers, so that nothing is lost to rounding before a result is
//! shown.

use vstd::prelude::*;

verus! {

/// The number of characters that count as one word.
pub const STANDARD_WORD_LENGTH: u64 = 5;

/// A session shorter than this many milliseconds has no measurable speed.
pub const MIN_MEASURED_MILLIS: u64 = 10;

/// The numerator of a speed in words per minute for one character typed in
/// one millisecond: sixty thousand milliseconds a minute, five characters a
/// word.
pub const WPM_PER_CHAR_PER_MILLI: u64 = 12_000;

/// The numerator of the speed taken off for one error in one millisecond.
pub const PENALTY_PER_ERROR_PER_MILLI: u64 = 60_000;

/// A fraction of two mathematical integers.
pub struct Fraction {
    pub num: int,
    pub den: int,
}

impl Fraction {
    /// `self` is at most `other`, for fractions with positive denominators.
    pub open spec fn le(self, other: Fraction) -> bool {
        self.num * other.den <= other.num * self.den
    }

    /// `self` and `other` are the same number, for fractions with positive
    /// denominators.
    pub open spec fn same(self, other: Fraction) -> bool {
        self.num * other.den == other.num * self.den
    }

    /// The whole number `n`.
    pub open spec fn whole(n: int) -> Fraction {
        Fraction { num: n, den: 1 }
    }

    /// `factor` times the fraction.
    pub open spec fn times(self, factor: int) -> Fraction {
        Fraction { num: self.num * factor, den: self.den }
    }

    /// The nearest whole number to a non-negative fraction; half way
    /// between two, the even one.
    pub open spec fn rounded(self) -> int {
        let below = self.num / self.den;
        let rest = self.num % self.den;
        if 2 * rest > self.den || (2 * rest == self.den && below % 2 == 1) {
            below + 1
        } else {
            below
        }
    }
}

/// A non-negative fraction in machine integers.
#[derive(Debug, Clone, Copy, PartialEq, Eq, Structural)]
pub struct Ratio {
    /// The numerator.
    pub num: u128,
    /// The denominator, which is not zero.
    pub den: u64,
}

impl View for Ratio {
    type V = Fraction;

    open spec fn view(&self) -> Fraction {
        Fraction { num: self.num as int, den: self.den as int }
    }
}

impl Ratio {
    /// The denominator is not zero.
    pub open spec fn wf(self) -> bool {
        self.den > 0
    }

    /// The nearest whole number; half way between two, the even one.
    pub fn round(&self) -> (nearest: u128)
        requires
            self.wf(),
        ensures
            nearest == self@.rounded(),
    {
        let den = self.den as u128;
        let below = self.num / den;
        let rest = self.num % den;
        if 2 * rest > den || (2 * rest == den && below % 2 == 1) {
            assert(below < u128::MAX) by (nonlinear_arith)
                requires
                    below == self.num / den,
                    rest == self.num % den,
                    2 * rest >= den,
                    den > 0,
                    self.num <= u128::MAX,
            {
                assert(den >= 2);
                assert(self.num == den * (self.num / den) + self.num % den);
            }
            below + 1
        } else {
            below
        }
    }

    /// The nearest whole number of hundredths; half way between two, the
    /// even one.
    pub fn round_hundredths(&self) -> (nearest: u128)
        requires
            self.wf(),
            self.num * 100 <= u128::MAX,
        ensures
            nearest == self@.times(100).rounded(),
    {
        (Ratio { num: self.num * 100, den: self.den }).round()
    }
}

/// Whether a speed can be measured: something was typed, over at least
/// the shortest measured time.
pub open spec fn measurable(typed: int, elapsed_millis: int) -> bool {
    typed > 0 && elapsed_millis >= MIN_MEASURED_MILLIS
}

/// The number of typed characters that were not correct.
pub open spec fn error_count(correct: int, typed: int) -> int {
    if typed >= correct {
        typed - correct
    } else {
        0
    }
}

/// Gross speed in words per minute: a fifth of the characters typed, over
/// the minutes elapsed; zero where no speed can be measured.
pub open spec fn gross_wpm(typed: int, elapsed_millis: int) -> Fraction {
    if measurable(typed, elapsed_millis) {
        Fraction { num: typed * WPM_PER_CHAR_PER_MILLI, den: elapsed_millis }
    } else {
        Fraction::whole(0)
    }
}

/// Net speed in words per minute: the gross speed less one word per minute
/// for each error per minute, and never below zero.
pub open spec fn net_wpm(correct: int, typed: int, elapsed_millis: int) -> Fraction {
    if measurable(typed, elapsed_millis) {
        let gross = typed * WPM_PER_CHAR_PER_MILLI;
        let penalty = error_count(correct, typed) * PENALTY_PER_ERROR_PER_MILLI;
        Fraction { num: if gross >= penalty { gross - penalty } else { 0 }, den: elapsed_millis }
    } else {
        Fraction::whole(0)
    }
}

/// Accuracy in percent: the correct characters over the typed ones, and a
/// hundred where nothing was typed.
pub open spec fn accuracy(correct: int, typed: int) -> Fraction {
    if typed == 0 {
        Fraction::whole(100)
    } else {
        Fraction { num: correct * 100, den: typed }
    }
}

/// Gross speed, net speed and accuracy after `total_chars_typed` keystrokes,
/// `correct_chars` of them correct, in `elapsed_millis` milliseconds.
pub fn calculate_wpm(correct_chars: usize, total_chars_typed: usize, elapsed_millis: u64) -> (result: (
    Ratio,
    Ratio,
    Ratio,
))
    ensures
        result.0@ == gross_wpm(total_chars_typed as int, elapsed_millis as int),
        result.1@ == net_wpm(correct_chars as int, total_chars_typed as int, elapsed_millis as int),
        result.2@ == accuracy(correct_chars as int, total_chars_typed as int),
        result.0.wf() && result.1.wf() && result.2.wf(),
        result.1@.le(result.0@),
{
    let typed: u128 = total_chars_typed as u128;
    let correct: u128 = correct_chars as u128;
    let percent = if total_chars_typed == 0 {
        Ratio { num: 100, den: 1 }
    } else {
        Ratio { num: correct * 100, den: total_chars_typed as u64 }
    };
    if elapsed_millis < MIN_MEASURED_MILLIS || total_chars_typed == 0 {
        return (Ratio { num: 0, den: 1 }, Ratio { num: 0, den: 1 }, percent);
    }
    let gross: u128 = typed * (WPM_PER_CHAR_PER_MILLI as u128);
    let errors: u128 = if typed >= correct {
        typed - correct
    } else {
        0
    };
    let penalty: u128 = errors * (PENALTY_PER_ERROR_PER_MILLI as u128);
    let net: u128 = if gross >= penalty {
        gross - penalty
    } else {
        0
    };
    proof {
        law_net_at_most_gross(
            correct_chars as int,
            total_chars_typed as int,
            elapsed_millis as int,
        );
    }
    (Ratio { num: gross, den: elapsed_millis }, Ratio { num: net, den: elapsed_millis }, percent)
}

/// With nothing typed, both speeds are zero and the accuracy is a hundred
/// percent, whatever the time and the count of correct characters.
pub proof fn law_nothing_typed(correct: int, elapsed_millis: int)
    ensures
        gross_wpm(0, elapsed_millis) == Fraction::whole(0),
        net_wpm(correct, 0, elapsed_millis) == Fraction::whole(0),
        accuracy(correct, 0) == Fraction::whole(100),
{
}

/// Where every typed character was correct, the accuracy is a hundred
/// percent.
pub proof fn law_all_correct_is_full_accuracy(typed: int)
    requires
        typed > 0,
    ensures
        accuracy(typed, typed).same(Fraction::whole(100)),
{
}

/// The net speed never exceeds the gross speed, and is never negative.
pub proof fn law_net_at_most_gross(correct: int, typed: int, elapsed_millis: int)
    requires
        typed >= 0,
        elapsed_millis >= 0,
    ensures
        net_wpm(correct, typed, elapsed_millis).le(gross_wpm(typed, elapsed_millis)),
        Fraction::whole(0).le(net_wpm(correct, typed, elapsed_millis)),
{
    if measurable(typed, elapsed_millis) {
        let gross = typed * WPM_PER_CHAR_PER_MILLI;
        let net = net_wpm(correct, typed, elapsed_millis).num;
        assert(0 <= net <= gross);
        assert(net * elapsed_millis <= gross * elapsed_millis) by (nonlinear_arith)
            requires
                net <= gross,
                elapsed_millis >= 0,
        ;
        assert(0 * elapsed_millis <= net * 1) by (nonlinear_arith)
            requires
                net >= 0,
        ;
    }
}

/// Without errors the net speed is the gross speed.
pub proof fn law_no_errors_no_penalty(correct: int, typed: int, elapsed_millis: int)
    requires
        correct >= typed,
    ensures
        net_wpm(correct, typed, elapsed_millis) == gross_wpm(typed, elapsed_millis),
{
}

} // verus!
