//! The line of words of the typing screen: which words are on it, in
//! which pieces, and how each piece is painted.

use vstd::prelude::*;
use colored::Colorize;
use crate::data_loader::texts;
use crate::game::{GameState, GameView};
use crate::text::joined;

verus! {

/// The number of words before the current one that stay on the screen.
pub const WORDS_BEHIND: usize = 5;

/// The number of characters, separators included, after which the window
/// of words is cut once it holds the current word.
pub const WINDOW_CHARS: usize = 60;

/// The characters that the words from `from` up to `to` take on a line,
/// one separator after each included.
pub open spec fn span(words: Seq<Seq<char>>, from: int, to: int) -> int
    decreases to - from,
{
    if to <= from {
        0
    } else {
        span(words, from, to - 1) + words[to - 1].len() + 1
    }
}

/// The index of the first word of the window: a few words before the
/// current one.
pub open spec fn window_start(view: GameView) -> int {
    if view.word_index <= WORDS_BEHIND {
        0
    } else if view.word_index - WORDS_BEHIND >= view.words.len() {
        view.words.len() as int
    } else {
        view.word_index - WORDS_BEHIND
    }
}

/// The end of the window, looking from word `next` on: the first word
/// after the current one with which the window would take more characters
/// than it may, or the end of the words.
pub open spec fn window_end_from(view: GameView, next: int) -> int
    decreases view.words.len() - next,
{
    if next >= view.words.len() {
        view.words.len() as int
    } else if next > view.word_index && span(view.words, window_start(view), next + 1)
        > WINDOW_CHARS {
        next
    } else {
        window_end_from(view, next + 1)
    }
}

/// The index after the last word of the window.
pub open spec fn window_end(view: GameView) -> int {
    window_end_from(view, window_start(view))
}

/// The window holds the words from a few before the current one up to the
/// current one, and then the words that follow for as long as the line
/// stays within its length.
pub proof fn law_window(view: GameView, i: int)
    requires
        0 <= view.word_index,
    ensures
        0 <= window_start(view) <= window_end(view) <= view.words.len(),
        window_start(view) <= i < window_end(view) && i > view.word_index ==> span(
            view.words,
            window_start(view),
            i + 1,
        ) <= WINDOW_CHARS,
        view.word_index < view.words.len() ==> window_start(view) <= view.word_index
            < window_end(view),
        window_end(view) < view.words.len() ==> window_end(view) > view.word_index && span(
            view.words,
            window_start(view),
            window_end(view) + 1,
        ) > WINDOW_CHARS,
{
    lemma_window_end_from(view, window_start(view), i);
}

/// What `law_window` states, for the search from `next` on.
proof fn lemma_window_end_from(view: GameView, next: int, i: int)
    requires
        0 <= next <= view.words.len(),
    ensures
        next <= window_end_from(view, next) <= view.words.len(),
        next <= i < window_end_from(view, next) && i > view.word_index ==> span(
            view.words,
            window_start(view),
            i + 1,
        ) <= WINDOW_CHARS,
        next <= view.word_index < view.words.len() ==> view.word_index < window_end_from(
            view,
            next,
        ),
        window_end_from(view, next) < view.words.len() ==> window_end_from(view, next)
            > view.word_index && span(view.words, window_start(view), window_end_from(view, next) + 1)
            > WINDOW_CHARS,
    decreases view.words.len() - next,
{
    if next < view.words.len() && !(next > view.word_index && span(
        view.words,
        window_start(view),
        next + 1,
    ) > WINDOW_CHARS) {
        lemma_window_end_from(view, next + 1, i);
    }
}

/// The first word of the window and the word after its last.
pub fn visible_window(state: &GameState) -> (window: (usize, usize))
    ensures
        window.0 == window_start(state@),
        window.1 == window_end(state@),
{
    let count = state.words_to_type.len();
    let start: usize = if state.current_word_index <= WORDS_BEHIND {
        0
    } else if state.current_word_index - WORDS_BEHIND >= count {
        count
    } else {
        state.current_word_index - WORDS_BEHIND
    };
    let mut chars: usize = 0;
    let mut next: usize = start;
    assert(texts(state.words_to_type@) == state@.words);
    while next < count
        invariant
            start == window_start(state@),
            start <= next <= count,
            count == state.words_to_type.len(),
            state@.words == texts(state.words_to_type@),
            window_end_from(state@, next as int) == window_end(state@),
            chars == if span(state@.words, start as int, next as int) > usize::MAX {
                usize::MAX as int
            } else {
                span(state@.words, start as int, next as int)
            },
        decreases count - next,
    {
        let len = state.words_to_type[next].as_str().unicode_len();
        assert(len == state@.words[next as int].len());
        chars = chars.saturating_add(len).saturating_add(1);
        if chars > WINDOW_CHARS && next > state.current_word_index {
            return (start, next);
        }
        next += 1;
    }
    (start, next)
}

/// How a piece of the line of words is shown.
#[derive(Debug, Clone, Copy, PartialEq, Eq, Structural)]
pub enum Style {
    /// Typed and correct.
    Matched,
    /// Typed and wrong.
    Mistyped,
    /// The character to type next.
    Cursor,
    /// Not in focus: words behind, words ahead, and what is left of the
    /// current word.
    Dimmed,
    /// As it is: the separator between words.
    Plain,
}

/// A piece of the line of words, to be shown in one style.
#[derive(Debug)]
pub struct Segment {
    /// How the piece is shown.
    pub style: Style,
    /// The characters of the piece.
    pub text: String,
}

/// A piece of the line of words as plain mathematical values.
pub struct SegmentView {
    pub style: Style,
    pub text: Seq<char>,
}

impl View for Segment {
    type V = SegmentView;

    open spec fn view(&self) -> SegmentView {
        SegmentView { style: self.style, text: self.text@ }
    }
}

/// The view of each piece of a list, in order.
pub open spec fn segment_views(segments: Seq<Segment>) -> Seq<SegmentView> {
    Seq::new(segments.len(), |i: int| segments[i]@)
}

/// The piece `text` in `style`, unless `text` is empty.
pub open spec fn piece(style: Style, text: Seq<char>) -> Seq<SegmentView> {
    if text.len() > 0 {
        seq![SegmentView { style, text }]
    } else {
        Seq::empty()
    }
}

/// The pieces of the current word: the matched input, the pending errors,
/// the character under the cursor, which stands out only while no error is
/// pending, and the characters after it.
pub open spec fn current_word_segments(view: GameView) -> Seq<SegmentView> {
    let word = view.current_word();
    let typed = piece(Style::Matched, view.input) + piece(Style::Mistyped, view.errors);
    if 0 <= view.char_index < word.len() {
        typed + seq![
            SegmentView {
                style: if view.errors.len() == 0 {
                    Style::Cursor
                } else {
                    Style::Dimmed
                },
                text: seq![word[view.char_index]],
            },
        ] + piece(Style::Dimmed, word.skip(view.char_index + 1))
    } else {
        typed
    }
}

/// The pieces of word `i`: those of the current word, or the whole word
/// dimmed.
pub open spec fn word_segments(view: GameView, i: int) -> Seq<SegmentView> {
    if i == view.word_index {
        current_word_segments(view)
    } else {
        seq![SegmentView { style: Style::Dimmed, text: view.words[i] }]
    }
}

/// The separator between two words.
pub open spec fn separator() -> SegmentView {
    SegmentView { style: Style::Plain, text: seq![' '] }
}

/// The pieces of the words from `from` up to `to`, with a separator
/// between each two words.
pub open spec fn line_segments(view: GameView, from: int, to: int) -> Seq<SegmentView>
    decreases to - from,
{
    if to <= from {
        Seq::empty()
    } else if to == from + 1 {
        word_segments(view, from)
    } else {
        line_segments(view, from, to - 1) + seq![separator()] + word_segments(view, to - 1)
    }
}

/// The pieces of the line of words that is on the screen.
pub open spec fn visible_line(view: GameView) -> Seq<SegmentView> {
    line_segments(view, window_start(view), window_end(view))
}

/// What the pieces spell when the mistyped ones are left out.
pub open spec fn spelled(segments: Seq<SegmentView>) -> Seq<char>
    decreases segments.len(),
{
    if segments.len() == 0 {
        Seq::empty()
    } else if segments.last().style == Style::Mistyped {
        spelled(segments.drop_last())
    } else {
        spelled(segments.drop_last()) + segments.last().text
    }
}

/// The words from `from` up to `to`, with one space between each two.
pub open spec fn spaced(words: Seq<Seq<char>>, from: int, to: int) -> Seq<char>
    decreases to - from,
{
    if to <= from {
        Seq::empty()
    } else if to == from + 1 {
        words[from]
    } else {
        spaced(words, from, to - 1) + seq![' '] + words[to - 1]
    }
}

/// In a session that keeps its invariant, the pieces of the current word
/// spell that word, the pending errors left aside: what is typed of it,
/// then the character under the cursor, then what follows.
pub proof fn law_current_word_is_spelled(view: GameView)
    requires
        view.wf(),
        !view.finished(),
    ensures
        spelled(current_word_segments(view)) == view.current_word(),
{
    let word = view.current_word();
    lemma_spelled_piece(Style::Matched, view.input);
    lemma_spelled_piece(Style::Mistyped, view.errors);
    let typed = piece(Style::Matched, view.input) + piece(Style::Mistyped, view.errors);
    lemma_spelled_concat(piece(Style::Matched, view.input), piece(Style::Mistyped, view.errors));
    assert(spelled(typed) =~= view.input);
    if view.char_index < word.len() {
        let cursor = seq![
            SegmentView {
                style: if view.errors.len() == 0 {
                    Style::Cursor
                } else {
                    Style::Dimmed
                },
                text: seq![word[view.char_index]],
            },
        ];
        let rest = piece(Style::Dimmed, word.skip(view.char_index + 1));
        lemma_spelled_one(cursor[0]);
        lemma_spelled_piece(Style::Dimmed, word.skip(view.char_index + 1));
        lemma_spelled_concat(typed, cursor);
        lemma_spelled_concat(typed + cursor, rest);
        assert(word.take(view.char_index) + seq![word[view.char_index]] + word.skip(
            view.char_index + 1,
        ) =~= word);
    } else {
        assert(word.take(view.char_index) =~= word);
    }
}

/// In a session that keeps its invariant, the line of words reads, the
/// pending errors left aside, as its words with one space between each two.
pub proof fn law_line_reads_as_its_words(view: GameView, from: int, to: int)
    requires
        view.wf(),
        0 <= from <= to <= view.words.len(),
    ensures
        spelled(line_segments(view, from, to)) == spaced(view.words, from, to),
    decreases to - from,
{
    if to > from {
        let last = word_segments(view, to - 1);
        assert(spelled(last) == view.words[to - 1]) by {
            if to - 1 == view.word_index {
                law_current_word_is_spelled(view);
            } else {
                lemma_spelled_one(last[0]);
            }
        }
        if to > from + 1 {
            let blank = seq![separator()];
            law_line_reads_as_its_words(view, from, to - 1);
            lemma_spelled_one(separator());
            lemma_spelled_concat(line_segments(view, from, to - 1), blank);
            lemma_spelled_concat(line_segments(view, from, to - 1) + blank, last);
        }
    }
}

/// One piece alone spells its text, or nothing if it is mistyped.
proof fn lemma_spelled_one(segment: SegmentView)
    ensures
        spelled(seq![segment]) == if segment.style == Style::Mistyped {
            Seq::<char>::empty()
        } else {
            segment.text
        },
{
    let one = seq![segment];
    assert(one.drop_last() =~= Seq::<SegmentView>::empty());
    assert(spelled(one.drop_last()) =~= Seq::<char>::empty());
    assert(one.last() == segment);
    assert(Seq::<char>::empty() + segment.text =~= segment.text);
}

/// A piece that is not mistyped spells its text, a mistyped one nothing.
proof fn lemma_spelled_piece(style: Style, text: Seq<char>)
    ensures
        spelled(piece(style, text)) == if style == Style::Mistyped {
            Seq::<char>::empty()
        } else {
            text
        },
{
    if text.len() > 0 {
        lemma_spelled_one(SegmentView { style, text });
    } else {
        assert(spelled(piece(style, text)) =~= text);
    }
}

/// Pieces one after the other spell what each of them spells, one after
/// the other.
proof fn lemma_spelled_concat(front: Seq<SegmentView>, back: Seq<SegmentView>)
    ensures
        spelled(front + back) == spelled(front) + spelled(back),
    decreases back.len(),
{
    if back.len() == 0 {
        assert(front + back =~= front);
        assert(spelled(front) + spelled(back) =~= spelled(front));
    } else {
        lemma_spelled_concat(front, back.drop_last());
        assert((front + back).drop_last() =~= front + back.drop_last());
        assert((front + back).last() == back.last());
        if back.last().style != Style::Mistyped {
            assert(spelled(front) + (spelled(back.drop_last()) + back.last().text) =~= (spelled(
                front,
            ) + spelled(back.drop_last())) + back.last().text);
        }
    }
}

/// Appends the piece `text` in `style` to `segments`, unless `text` is
/// empty.
fn push_piece(segments: &mut Vec<Segment>, style: Style, text: &str)
    ensures
        segment_views(final(segments)@) == segment_views(old(segments)@) + piece(style, text@),
{
    if !text.is_empty() {
        segments.push(Segment { style, text: text.to_owned() });
    }
    assert(segment_views(segments@) =~= segment_views(old(segments)@) + piece(style, text@));
}

/// Appends the pieces of word `i` to `segments`.
fn push_word(segments: &mut Vec<Segment>, state: &GameState, i: usize)
    requires
        i < state.words_to_type.len(),
    ensures
        segment_views(final(segments)@) == segment_views(old(segments)@) + word_segments(
            state@,
            i as int,
        ),
{
    let word = state.words_to_type[i].as_str();
    assert(word@ == state@.words[i as int]);
    if i != state.current_word_index {
        segments.push(Segment { style: Style::Dimmed, text: word.to_owned() });
        assert(segment_views(segments@) =~= segment_views(old(segments)@) + word_segments(
            state@,
            i as int,
        ));
        return ;
    }
    push_piece(segments, Style::Matched, state.user_input.as_str());
    push_piece(segments, Style::Mistyped, state.errors.as_str());
    let len = word.unicode_len();
    if state.current_char_index < len {
        let mut under_cursor = String::new();
        under_cursor.push(word.get_char(state.current_char_index));
        let style = if state.errors.as_str().is_empty() {
            Style::Cursor
        } else {
            Style::Dimmed
        };
        let ghost before = segment_views(segments@);
        segments.push(Segment { style, text: under_cursor });
        assert(segment_views(segments@) =~= before.push(
            SegmentView { style, text: seq![word@[state.current_char_index as int]] },
        ));
        push_piece(segments, Style::Dimmed, word.substring_char(state.current_char_index + 1, len));
    }
    assert(segment_views(segments@) =~= segment_views(old(segments)@) + word_segments(
        state@,
        i as int,
    ));
}

/// The pieces of the line of words that is on the screen: a window of
/// words round the current one.
pub fn visible_segments(state: &GameState) -> (segments: Vec<Segment>)
    ensures
        segment_views(segments@) == visible_line(state@),
{
    let (start, end) = visible_window(state);
    proof {
        law_window(state@, 0);
    }
    let mut segments: Vec<Segment> = Vec::new();
    assert(segment_views(segments@) =~= Seq::<SegmentView>::empty());
    for i in start..end
        invariant
            start <= end <= state.words_to_type.len(),
            segment_views(segments@) == line_segments(state@, start as int, i as int),
    {
        if i > start {
            let ghost before = segment_views(segments@);
            let mut blank = String::new();
            blank.push(' ');
            segments.push(Segment { style: Style::Plain, text: blank });
            assert(segment_views(segments@) =~= before + seq![separator()]);
        }
        push_word(&mut segments, state, i);
        assert(segment_views(segments@) =~= line_segments(state@, start as int, i as int + 1));
    }
    segments
}

/// The text holds no escape character, so that no mark stands in it.
pub open spec fn unmarked(text: Seq<char>) -> bool {
    forall|i: int| 0 <= i < text.len() ==> #[trigger] text[i] != '\u{1b}'
}

/// The mark that opens a piece in `style` on a terminal with colours: green
/// letters, a red ground, black letters on a yellow ground, dimmed letters.
/// A plain piece has none.
pub open spec fn mark(style: Style) -> Seq<char> {
    match style {
        Style::Matched => "\u{1b}[32m"@,
        Style::Mistyped => "\u{1b}[41m"@,
        Style::Cursor => "\u{1b}[43;30m"@,
        Style::Dimmed => "\u{1b}[2m"@,
        Style::Plain => Seq::empty(),
    }
}

/// The mark that closes a piece: it resets the terminal to its own style.
pub open spec fn end_mark() -> Seq<char> {
    "\u{1b}[0m"@
}

/// `painted` shows the piece: a plain piece is its text; any other piece,
/// if no mark stands in its text, is its text as it is, where colours are
/// switched off, or its text between the mark of its style and the closing
/// mark, where they are on.
pub open spec fn shows(painted: Seq<char>, piece: SegmentView) -> bool {
    if piece.style == Style::Plain {
        painted == piece.text
    } else {
        unmarked(piece.text) ==> (painted == piece.text || painted == mark(piece.style)
            + piece.text + end_mark())
    }
}

/// `painted` holds one text for each piece, and each text shows its piece.
pub open spec fn paints(painted: Seq<Seq<char>>, segments: Seq<SegmentView>) -> bool {
    &&& painted.len() == segments.len()
    &&& forall|i: int| 0 <= i < segments.len() ==> shows(#[trigger] painted[i], segments[i])
}

/// A text that shows a piece without marks of its own holds the text of
/// the piece, whole and in one run.
pub proof fn law_painting_holds_the_text(painted: Seq<char>, piece: SegmentView)
    requires
        shows(painted, piece),
        unmarked(piece.text),
    ensures
        exists|from: int|
            0 <= from && from + piece.text.len() <= painted.len() && #[trigger] painted.subrange(
                from,
                from + piece.text.len(),
            ) == piece.text,
{
    if painted == piece.text {
        assert(painted.subrange(0int, 0int + piece.text.len()) =~= piece.text);
    } else {
        let from = mark(piece.style).len() as int;
        assert(painted.subrange(from, from + piece.text.len()) =~= piece.text);
    }
}

/// `colored::Colorize::green`, written out. The crate writes the text as
/// it is where colours are switched off, and between the mark for green
/// letters and the closing mark where they are on. A text that holds marks
/// of its own may be rewritten, and nothing is stated of it.
#[verifier::external_body]
fn paint_matched(text: &str) -> (painted: String)
    ensures
        shows(painted@, (SegmentView { style: Style::Matched, text: text@ })),
{
    format!("{}", text.green())
}

/// `colored::Colorize::on_red`, written out. The crate writes the text as
/// it is where colours are switched off, and between the mark for a red
/// ground and the closing mark where they are on. A text that holds marks
/// of its own may be rewritten, and nothing is stated of it.
#[verifier::external_body]
fn paint_mistyped(text: &str) -> (painted: String)
    ensures
        shows(painted@, (SegmentView { style: Style::Mistyped, text: text@ })),
{
    format!("{}", text.on_red())
}

/// `colored::Colorize::black` and then `colored::Colorize::on_yellow`,
/// written out. The crate writes the text as it is where colours are
/// switched off, and between the mark for black letters on a yellow ground
/// and the closing mark where they are on. A text that holds marks of its
/// own may be rewritten, and nothing is stated of it.
#[verifier::external_body]
fn paint_cursor(text: &str) -> (painted: String)
    ensures
        shows(painted@, (SegmentView { style: Style::Cursor, text: text@ })),
{
    format!("{}", text.black().on_yellow())
}

/// `colored::Colorize::dimmed`, written out. The crate writes the text as
/// it is where colours are switched off, and between the mark for dimmed
/// letters and the closing mark where they are on. A text that holds marks
/// of its own may be rewritten, and nothing is stated of it.
#[verifier::external_body]
fn paint_dimmed(text: &str) -> (painted: String)
    ensures
        shows(painted@, (SegmentView { style: Style::Dimmed, text: text@ })),
{
    format!("{}", text.dimmed())
}

/// The text of a piece for the terminal: a plain piece as it is, any other
/// as the terminal at hand shows its style.
pub fn paint(segment: &Segment) -> (painted: String)
    ensures
        shows(painted@, segment@),
{
    let text = segment.text.as_str();
    match segment.style {
        Style::Matched => paint_matched(text),
        Style::Mistyped => paint_mistyped(text),
        Style::Cursor => paint_cursor(text),
        Style::Dimmed => paint_dimmed(text),
        Style::Plain => text.to_owned(),
    }
}

/// The pieces painted and put together into one line: the line is, piece
/// after piece, a text that shows that piece.
pub fn paint_line(segments: &Vec<Segment>) -> (line: String)
    ensures
        exists|painted: Seq<Seq<char>>|
            paints(painted, segment_views(segments@)) && line@ == joined(painted),
{
    let mut line = String::new();
    let ghost mut painted: Seq<Seq<char>> = Seq::empty();
    for i in 0..segments.len()
        invariant
            paints(painted, segment_views(segments@).take(i as int)),
            line@ == joined(painted),
    {
        let part = paint(&segments[i]);
        line.append(part.as_str());
        proof {
            let longer = painted.push(part@);
            assert(longer.drop_last() =~= painted);
            painted = longer;
        }
    }
    assert(segment_views(segments@).take(segments.len() as int) =~= segment_views(segments@));
    line
}

} // verus!
