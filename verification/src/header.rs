//! The two header lines of the typing screen: the clock and the live
//! figures.

use vstd::prelude::*;
use crate::config::GameType;
use crate::game::{GameState, GameView};
use crate::metrics::{accuracy, calculate_wpm, gross_wpm, net_wpm, Fraction, Ratio};
use crate::text::{decimal, push_decimal, push_two_digits, two_digits};

verus! {

/// Minutes and seconds of a time in milliseconds, two digits each at
/// least, with a colon between them.
pub open spec fn clock(millis: int) -> Seq<char> {
    two_digits((millis / 60_000) as nat) + seq![':'] + two_digits(((millis % 60_000) / 1000) as nat)
}

/// The milliseconds left of a timed session after `elapsed` milliseconds.
pub open spec fn remaining_millis(view: GameView, elapsed: u64) -> int {
    if view.duration_millis() >= elapsed {
        view.duration_millis() - elapsed
    } else {
        0
    }
}

/// The first header line: the time left of a timed session, the time
/// elapsed of any other.
pub open spec fn timer_line(view: GameView, elapsed: u64) -> Seq<char> {
    if view.config.game_type == GameType::Time {
        "Time Left: "@ + clock(remaining_millis(view, elapsed))
    } else {
        "Time Elapsed: "@ + clock(elapsed as int)
    }
}

/// A non-negative fraction to two decimal places; half way between two
/// hundredths, the even one.
pub open spec fn two_places(value: Fraction) -> Seq<char> {
    let hundredths = value.times(100).rounded();
    decimal((hundredths / 100) as nat) + seq!['.'] + two_digits((hundredths % 100) as nat)
}

/// Whether the live figures are shown: the clock runs, for more than ten
/// milliseconds.
pub open spec fn shows_figures(view: GameView, elapsed: u64) -> bool {
    view.start_time is Some && elapsed > 10
}

/// The second header line: both speeds to the nearest whole number and the
/// accuracy to two places, or dashes while there is nothing to show.
pub open spec fn stats_line(view: GameView, elapsed: u64) -> Seq<char> {
    if shows_figures(view, elapsed) {
        "Gross WPM: "@ + decimal(gross_wpm(view.typed, elapsed as int).rounded() as nat)
            + " | Net WPM: "@ + decimal(
            net_wpm(view.correct, view.typed, elapsed as int).rounded() as nat,
        ) + " | Accuracy: "@ + two_places(accuracy(view.correct, view.typed)) + "%"@
    } else {
        "Gross WPM: - | Net WPM: - | Accuracy: -%"@
    }
}

/// Appends minutes and seconds of a time in milliseconds to `out`.
pub fn push_clock(out: &mut String, millis: u64)
    ensures
        final(out)@ == old(out)@ + clock(millis as int),
{
    push_two_digits(out, (millis / 60_000) as u128);
    out.push(':');
    push_two_digits(out, ((millis % 60_000) / 1000) as u128);
    assert(out@ =~= old(out)@ + clock(millis as int));
}

/// Appends a fraction to two decimal places to `out`.
pub fn push_two_places(out: &mut String, value: &Ratio)
    requires
        value.wf(),
        value.num * 100 <= u128::MAX,
    ensures
        final(out)@ == old(out)@ + two_places(value@),
{
    let hundredths = value.round_hundredths();
    push_decimal(out, hundredths / 100);
    out.push('.');
    push_two_digits(out, hundredths % 100);
    assert(out@ =~= old(out)@ + two_places(value@));
}

/// The first header line after `elapsed` milliseconds.
pub fn timer_text(state: &GameState, elapsed: u64) -> (line: String)
    ensures
        line@ == timer_line(state@, elapsed),
{
    match state.config.game_type {
        GameType::Time => {
            let total: u64 = match state.config.time_seconds {
                Some(seconds) => seconds as u64 * 1000,
                None => 0,
            };
            let remaining: u64 = if total >= elapsed {
                total - elapsed
            } else {
                0
            };
            let mut line = "Time Left: ".to_owned();
            push_clock(&mut line, remaining);
            line
        },
        _ => {
            let mut line = "Time Elapsed: ".to_owned();
            push_clock(&mut line, elapsed);
            line
        },
    }
}

/// The second header line after `elapsed` milliseconds.
pub fn stats_text(state: &GameState, elapsed: u64) -> (line: String)
    ensures
        line@ == stats_line(state@, elapsed),
{
    if state.start_time.is_some() && elapsed > 10 {
        let (gross, net, percent) = calculate_wpm(
            state.correct_chars_total,
            state.typed_chars_total,
            elapsed,
        );
        let mut line = "Gross WPM: ".to_owned();
        push_decimal(&mut line, gross.round());
        line.append(" | Net WPM: ");
        push_decimal(&mut line, net.round());
        line.append(" | Accuracy: ");
        push_two_places(&mut line, &percent);
        line.append("%");
        assert(line@ =~= stats_line(state@, elapsed));
        line
    } else {
        "Gross WPM: - | Net WPM: - | Accuracy: -%".to_owned()
    }
}

} // verus!
