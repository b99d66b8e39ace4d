//! The screens of a session as lists of placed lines.
//!
//! Nothing here writes to a terminal: each screen is computed as the lines
//! to print and the cell at which each of them starts.

use vstd::prelude::*;
use crate::data_loader::texts;
use crate::frame::{
    center_col, center_offset, centered_col, centered_lines, centered_offset, place_centered,
    placement_views, Placement, PlacementView,
};
use crate::game::{GameState, GameView};
use crate::header::{
    clock, push_clock, push_two_places, stats_line, stats_text, timer_line, timer_text, two_places,
};
use crate::line::{paint_line, paints, visible_line, visible_segments};
use crate::metrics::{accuracy, calculate_wpm, gross_wpm, net_wpm};
use crate::text::{decimal, joined, lines, push_decimal, split_lines};

verus! {

/// The rows that the header takes.
pub const HEADER_ROWS: u16 = 2;

/// The rows that the footer takes.
pub const FOOTER_ROWS: u16 = 1;

/// The columns left free on both sides of the line of words, together.
pub const SIDE_MARGIN: u16 = 4;

/// The least width to which the line of words is wrapped.
pub const MIN_WRAP_WIDTH: u16 = 10;

/// The lines into which `textwrap::wrap` breaks `text` at `width` columns.
pub uninterp spec fn wrapped_lines(text: Seq<char>, width: nat) -> Seq<Seq<char>>;

/// The banner that `figlet_rs` draws of `message` in its standard font, if
/// it draws one.
pub uninterp spec fn standard_banner(message: Seq<char>) -> Option<Seq<char>>;

/// `textwrap::wrap` with a width and no other option, each line copied
/// into a string of its own: the lines are those that the crate breaks
/// the text into, which depend on the text and the width alone.
#[verifier::external_body]
fn wrap_text(text: &str, width: u16) -> (wrapped: Vec<String>)
    ensures
        texts(wrapped@) == wrapped_lines(text@, width as nat),
{
    textwrap::wrap(text, usize::from(width)).into_iter().map(|line| line.into_owned()).collect()
}

/// `figlet_rs::FIGfont::standard` and `figlet_rs::FIGfont::convert`, the
/// figure written out: the banner of the message in the font that the
/// crate carries, or `None` where the crate gives no font or no figure.
/// Which of the two, and the banner, depend on the message alone.
#[verifier::external_body]
fn figlet_banner(message: &str) -> (banner: Option<String>)
    ensures
        banner is Some <==> standard_banner(message@) is Some,
        banner is Some ==> standard_banner(message@) == Some(banner->0@),
{
    match figlet_rs::FIGfont::standard() {
        Ok(font) => match font.convert(message) {
            Some(figure) => Some(figure.to_string()),
            None => None,
        },
        Err(_) => None,
    }
}

/// The width to which the line of words is wrapped on a terminal of
/// `cols` columns.
pub open spec fn wrap_width(cols: u16) -> nat {
    if cols - SIDE_MARGIN >= MIN_WRAP_WIDTH {
        (cols - SIDE_MARGIN) as nat
    } else {
        MIN_WRAP_WIDTH as nat
    }
}

/// The row of the first line of words: below the header, in the middle
/// of the rows between header and footer.
pub open spec fn body_first_row(rows: u16, body_lines: int) -> u16 {
    let available = if rows >= HEADER_ROWS + FOOTER_ROWS {
        (rows - HEADER_ROWS - FOOTER_ROWS) as u16
    } else {
        0u16
    };
    (HEADER_ROWS + centered_offset(available, body_lines)) as u16
}

/// The last row of a terminal of `rows` rows.
pub open spec fn last_row(rows: u16) -> u16 {
    if rows > 0 {
        (rows - 1) as u16
    } else {
        0
    }
}

/// The footer of the typing screen.
pub open spec fn quit_hint(cols: u16, rows: u16) -> PlacementView {
    PlacementView {
        col: centered_col(cols, "Press Esc to quit"@.len() as int),
        row: last_row(rows),
        text: "Press Esc to quit"@,
    }
}

/// The typing screen: the two header lines on the first rows, the lines of
/// words in the middle of what is left, and the footer on the last row,
/// each line centered.
pub open spec fn game_screen(
    timer: Seq<char>,
    stats: Seq<char>,
    body: Seq<Seq<char>>,
    cols: u16,
    rows: u16,
) -> Seq<PlacementView> {
    centered_lines(seq![timer, stats], cols, 0) + centered_lines(
        body,
        cols,
        body_first_row(rows, body.len() as int),
    ) + seq![quit_hint(cols, rows)]
}

/// Lays the typing screen out from its header lines and the wrapped lines
/// of words.
pub fn layout_game_screen(timer: String, stats: String, body: &Vec<String>, cols: u16, rows: u16) -> (frame:
    Vec<Placement>)
    ensures
        placement_views(frame@) == game_screen(timer@, stats@, texts(body@), cols, rows),
{
    let mut header: Vec<String> = Vec::new();
    header.push(timer);
    header.push(stats);
    assert(texts(header@) =~= seq![timer@, stats@]);
    let mut frame = place_centered(&header, cols, 0);
    let available: u16 = if rows >= HEADER_ROWS + FOOTER_ROWS {
        rows - HEADER_ROWS - FOOTER_ROWS
    } else {
        0
    };
    let first_row = HEADER_ROWS + center_offset(available, body.len());
    let mut placed = place_centered(body, cols, first_row);
    let ghost top = placement_views(frame@);
    let ghost middle = placement_views(placed@);
    frame.append(&mut placed);
    let hint = "Press Esc to quit";
    let footer = Placement {
        col: center_col(cols, hint.unicode_len()),
        row: if rows > 0 {
            rows - 1
        } else {
            0
        },
        text: hint.to_owned(),
    };
    frame.push(footer);
    assert(placement_views(frame@) =~= top + middle + seq![quit_hint(cols, rows)]);
    frame
}

/// The typing screen at the clock reading `now` on a terminal of `cols`
/// columns and `rows` rows.
///
/// The header and the footer are fixed by the state. The lines of words
/// are the visible pieces, painted and wrapped. Whether a styled piece
/// carries marks depends on whether colours are switched on, so the
/// contract speaks of some painting in which each text shows its piece.
pub fn render_game_interface(state: &GameState, now: u64, cols: u16, rows: u16) -> (frame: Vec<
    Placement,
>)
    ensures
        exists|painted: Seq<Seq<char>>|
            paints(painted, visible_line(state@)) && placement_views(frame@) == game_screen(
                timer_line(state@, state@.elapsed(now)),
                stats_line(state@, state@.elapsed(now)),
                wrapped_lines(joined(painted), wrap_width(cols)),
                cols,
                rows,
            ),
{
    let elapsed = state.elapsed_millis(now);
    let timer = timer_text(state, elapsed);
    let stats = stats_text(state, elapsed);
    let segments = visible_segments(state);
    let line = paint_line(&segments);
    let width: u16 = if cols >= SIDE_MARGIN + MIN_WRAP_WIDTH {
        cols - SIDE_MARGIN
    } else {
        MIN_WRAP_WIDTH
    };
    let body = wrap_text(line.as_str(), width);
    layout_game_screen(timer, stats, &body, cols, rows)
}

/// The milliseconds that the results are computed for: those recorded at
/// the end, or those played so far where none are recorded.
pub open spec fn final_time(view: GameView, now: u64) -> u64 {
    match view.final_elapsed {
        Some(elapsed) => elapsed,
        None => view.elapsed(now),
    }
}

/// The lines of the results below the banner.
pub open spec fn result_lines(view: GameView, elapsed: u64) -> Seq<Seq<char>> {
    seq![
        Seq::empty(),
        "Gross WPM: "@ + decimal(gross_wpm(view.typed, elapsed as int).rounded() as nat),
        "Net WPM:   "@ + decimal(net_wpm(view.correct, view.typed, elapsed as int).rounded() as nat),
        "Accuracy:  "@ + two_places(accuracy(view.correct, view.typed)) + "%"@,
        "Time Taken: "@ + clock(elapsed as int),
        Seq::empty(),
        "Press any key to return to main menu."@,
    ]
}

/// The end screen: the lines of the banner and the results, each centered,
/// in the middle of the rows.
pub open spec fn game_over_screen(
    banner: Seq<char>,
    view: GameView,
    elapsed: u64,
    cols: u16,
    rows: u16,
) -> Seq<PlacementView> {
    let all = lines(banner) + result_lines(view, elapsed);
    centered_lines(all, cols, centered_offset(rows, all.len() as int))
}

/// Lays the end screen out from the banner and the results after `elapsed`
/// milliseconds.
pub fn layout_game_over(banner: &str, state: &GameState, elapsed: u64, cols: u16, rows: u16) -> (frame:
    Vec<Placement>)
    ensures
        placement_views(frame@) == game_over_screen(banner@, state@, elapsed, cols, rows),
{
    let mut all = split_lines(banner);
    let ghost top = texts(all@);
    let (gross, net, percent) = calculate_wpm(
        state.correct_chars_total,
        state.typed_chars_total,
        elapsed,
    );
    let mut gross_line = "Gross WPM: ".to_owned();
    push_decimal(&mut gross_line, gross.round());
    let mut net_line = "Net WPM:   ".to_owned();
    push_decimal(&mut net_line, net.round());
    let mut accuracy_line = "Accuracy:  ".to_owned();
    push_two_places(&mut accuracy_line, &percent);
    accuracy_line.append("%");
    let mut time_line = "Time Taken: ".to_owned();
    push_clock(&mut time_line, elapsed);
    all.push(String::new());
    all.push(gross_line);
    all.push(net_line);
    all.push(accuracy_line);
    all.push(time_line);
    all.push(String::new());
    all.push("Press any key to return to main menu.".to_owned());
    assert(texts(all@) =~= top + result_lines(state@, elapsed));
    place_centered(&all, cols, center_offset(rows, all.len()))
}

/// The banner of the end screen: what the standard font makes of the
/// words `Game Over!`, and nothing where it makes nothing of them.
pub open spec fn game_over_banner() -> Seq<char> {
    match standard_banner("Game Over!"@) {
        Some(banner) => banner,
        None => Seq::empty(),
    }
}

/// The end screen at the clock reading `now` on a terminal of `cols`
/// columns and `rows` rows.
pub fn render_game_over(state: &GameState, now: u64, cols: u16, rows: u16) -> (frame: Vec<Placement>)
    ensures
        placement_views(frame@) == game_over_screen(
            game_over_banner(),
            state@,
            final_time(state@, now),
            cols,
            rows,
        ),
{
    let banner = match figlet_banner("Game Over!") {
        Some(banner) => banner,
        None => String::new(),
    };
    let elapsed = match state.final_elapsed_time_millis {
        Some(elapsed) => elapsed,
        None => state.elapsed_millis(now),
    };
    layout_game_over(banner.as_str(), state, elapsed, cols, rows)
}

/// The start prompt, centered in the middle row.
pub open spec fn start_prompt(cols: u16, rows: u16) -> PlacementView {
    PlacementView {
        col: centered_col(cols, "Press any key to start..."@.len() as int),
        row: rows / 2,
        text: "Press any key to start..."@,
    }
}

/// The start prompt on a terminal of `cols` columns and `rows` rows.
pub fn render_start_prompt(cols: u16, rows: u16) -> (prompt: Placement)
    ensures
        prompt@ == start_prompt(cols, rows),
{
    let text = "Press any key to start...";
    Placement { col: center_col(cols, text.unicode_len()), row: rows / 2, text: text.to_owned() }
}

} // verus!
