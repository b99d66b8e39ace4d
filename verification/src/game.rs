//! The state of a session and the keystroke transitions that move it.

use vstd::prelude::*;
use crate::config::GameConfig;
use crate::data_loader::{quote_views, texts, Quote, QuoteView};

verus! {

/// A session as plain mathematical values.
#[verifier::ext_equal]
pub struct GameView {
    /// The words of the session, fixed once selected.
    pub words: Seq<Seq<char>>,
    /// The index of the word being typed.
    pub word_index: int,
    /// How many characters of the current word are matched.
    pub char_index: int,
    /// The matched prefix of the current word.
    pub input: Seq<char>,
    /// The mistyped characters not yet taken back.
    pub errors: Seq<char>,
    /// The clock reading, in milliseconds, at the first key.
    pub start_time: Option<u64>,
    /// The configuration of the session.
    pub config: GameConfig,
    /// The word corpus.
    pub all_words: Seq<Seq<char>>,
    /// The quotation corpus.
    pub all_quotes: Seq<QuoteView>,
    /// The number of keystrokes that were correct.
    pub correct: int,
    /// The number of character keystrokes.
    pub typed: int,
    /// Whether the session is over.
    pub game_over: bool,
    /// The milliseconds that the session took, once it is over.
    pub final_elapsed: Option<u64>,
}

impl GameView {
    /// Every word has been typed.
    pub open spec fn finished(self) -> bool {
        self.word_index >= self.words.len()
    }

    /// The word being typed.
    pub open spec fn current_word(self) -> Seq<char> {
        self.words[self.word_index]
    }

    /// `c` is what the current position asks for: the next character of
    /// the current word, or the separator once the word is matched to its end.
    pub open spec fn fits(self, c: char) -> bool {
        &&& !self.finished()
        &&& if self.char_index < self.current_word().len() {
            self.current_word()[self.char_index] == c
        } else {
            c == ' '
        }
    }

    /// `c` is the next character of the current word and nothing mistyped
    /// stands in the way.
    pub open spec fn expects(self, c: char) -> bool {
        &&& self.fits(c)
        &&& self.errors.len() == 0
        &&& self.char_index < self.current_word().len()
    }

    /// The current word is matched to its end, nothing mistyped stands in
    /// the way, and `c` is the separator that closes it.
    pub open spec fn completes_word(self, c: char) -> bool {
        &&& self.fits(c)
        &&& self.errors.len() == 0
        &&& self.char_index >= self.current_word().len()
    }

    /// The session after the character key `c`.
    pub open spec fn after_char(self, c: char) -> GameView {
        if self.finished() {
            GameView { typed: self.typed + 1, ..self }
        } else if self.expects(c) {
            GameView {
                input: self.input.push(c),
                char_index: self.char_index + 1,
                correct: self.correct + 1,
                typed: self.typed + 1,
                ..self
            }
        } else if self.completes_word(c) {
            GameView {
                word_index: self.word_index + 1,
                char_index: 0,
                input: Seq::empty(),
                correct: self.correct + 1,
                typed: self.typed + 1,
                ..self
            }
        } else {
            GameView { errors: self.errors.push(c), typed: self.typed + 1, ..self }
        }
    }

    /// The session after the backspace key.
    pub open spec fn after_backspace(self) -> GameView {
        if self.errors.len() > 0 {
            GameView { errors: self.errors.drop_last(), ..self }
        } else if self.input.len() > 0 {
            GameView {
                input: self.input.drop_last(),
                char_index: if self.char_index > 0 { self.char_index - 1 } else { 0 },
                ..self
            }
        } else {
            self
        }
    }

    /// The session as it stands before the first key.
    pub open spec fn initial(
        config: GameConfig,
        all_words: Seq<Seq<char>>,
        all_quotes: Seq<QuoteView>,
        words: Seq<Seq<char>>,
    ) -> GameView {
        GameView {
            words,
            word_index: 0,
            char_index: 0,
            input: Seq::empty(),
            errors: Seq::empty(),
            start_time: None,
            config,
            all_words,
            all_quotes,
            correct: 0,
            typed: 0,
            game_over: false,
            final_elapsed: None,
        }
    }

    /// The invariant of a session: the position lies within the words, the
    /// matched input is the prefix of the current word up to the position,
    /// a pending error starts with a character that did not fit there, and
    /// no more keystrokes are counted correct than were typed.
    pub open spec fn wf(self) -> bool {
        &&& 0 <= self.word_index <= self.words.len()
        &&& 0 <= self.correct <= self.typed
        &&& self.game_over <==> self.final_elapsed is Some
        &&& !self.finished() ==> {
            &&& 0 <= self.char_index <= self.current_word().len()
            &&& self.input == self.current_word().take(self.char_index)
            &&& self.errors.len() > 0 ==> !self.fits(self.errors[0])
        }
        &&& self.finished() ==> {
            &&& self.char_index == 0
            &&& self.input.len() == 0
            &&& self.errors.len() == 0
        }
    }
}

/// The state of one session.
#[derive(Debug)]
pub struct GameState {
    /// The words selected for this session.
    pub words_to_type: Vec<String>,
    /// The index in `words_to_type` of the word being typed.
    pub current_word_index: usize,
    /// The number of characters of the current word that are matched.
    pub current_char_index: usize,
    /// The characters of the current word typed correctly so far.
    pub user_input: String,
    /// The mistyped characters not yet taken back.
    pub errors: String,
    /// The clock reading, in milliseconds, at which typing started.
    pub start_time: Option<u64>,
    /// The configuration of the session.
    pub config: GameConfig,
    /// The word corpus.
    pub all_loaded_words: Vec<String>,
    /// The quotation corpus.
    pub all_loaded_quotes: Vec<Quote>,
    /// The number of keystrokes that were correct.
    pub correct_chars_total: usize,
    /// The number of character keystrokes, correct or not.
    pub typed_chars_total: usize,
    /// Whether the session is over.
    pub game_over: bool,
    /// The milliseconds that the session took, set when it ends.
    pub final_elapsed_time_millis: Option<u64>,
}

impl View for GameState {
    type V = GameView;

    open spec fn view(&self) -> GameView {
        GameView {
            words: texts(self.words_to_type@),
            word_index: self.current_word_index as int,
            char_index: self.current_char_index as int,
            input: self.user_input@,
            errors: self.errors@,
            start_time: self.start_time,
            config: self.config,
            all_words: texts(self.all_loaded_words@),
            all_quotes: quote_views(self.all_loaded_quotes@),
            correct: self.correct_chars_total as int,
            typed: self.typed_chars_total as int,
            game_over: self.game_over,
            final_elapsed: self.final_elapsed_time_millis,
        }
    }
}

impl GameState {
    /// A session that has not started: at the first character of the first
    /// word, with nothing typed and both counters at zero.
    pub fn new(
        config: GameConfig,
        all_loaded_words: Vec<String>,
        all_loaded_quotes: Vec<Quote>,
        words_for_current_game: Vec<String>,
    ) -> (state: GameState)
        ensures
            state@ == GameView::initial(
                config,
                texts(all_loaded_words@),
                quote_views(all_loaded_quotes@),
                texts(words_for_current_game@),
            ),
            state@.wf(),
    {
        let state = GameState {
            words_to_type: words_for_current_game,
            current_word_index: 0,
            current_char_index: 0,
            user_input: String::new(),
            errors: String::new(),
            start_time: None,
            config,
            all_loaded_words,
            all_loaded_quotes,
            correct_chars_total: 0,
            typed_chars_total: 0,
            game_over: false,
            final_elapsed_time_millis: None,
        };
        proof {
            let view = state@;
            if !view.finished() {
                assert(view.input =~= view.current_word().take(0));
            }
            assert(view =~= GameView::initial(
                config,
                texts(all_loaded_words@),
                quote_views(all_loaded_quotes@),
                texts(words_for_current_game@),
            ));
        }
        state
    }

    /// Takes the character key `c`: a character that fits moves the position
    /// on, the separator after a matched word moves to the next word, any
    /// other character joins the pending errors, and past the last word only
    /// the keystroke is counted.
    pub fn type_char(&mut self, c: char)
        requires
            old(self).typed_chars_total < usize::MAX,
            old(self).correct_chars_total < usize::MAX,
        ensures
            final(self)@ == old(self)@.after_char(c),
            old(self)@.wf() ==> final(self)@.wf(),
            old(self)@.expects(c) ==> {
                &&& final(self).current_char_index == old(self).current_char_index + 1
                &&& final(self).correct_chars_total == old(self).correct_chars_total + 1
                &&& final(self).typed_chars_total - final(self).correct_chars_total == old(
                    self,
                ).typed_chars_total - old(self).correct_chars_total
                &&& final(self).user_input@ == old(self).user_input@.push(c)
                &&& final(self).errors@ == old(self).errors@
                &&& final(self).current_word_index == old(self).current_word_index
            },
            !old(self)@.finished() && (!old(self)@.fits(c) || old(self).errors@.len() > 0) ==> {
                &&& final(self).errors@ == old(self).errors@.push(c)
                &&& final(self).typed_chars_total == old(self).typed_chars_total + 1
                &&& final(self).correct_chars_total == old(self).correct_chars_total
                &&& final(self).user_input@ == old(self).user_input@
                &&& final(self).current_char_index == old(self).current_char_index
                &&& final(self).current_word_index == old(self).current_word_index
            },
    {
        proof {
            if self@.wf() {
                lemma_after_char_keeps_wf(self@, c);
            }
        }
        self.typed_chars_total += 1;
        if self.current_word_index >= self.words_to_type.len() {
            assert(self@ =~= old(self)@.after_char(c));
            return ;
        }
        let target = self.words_to_type[self.current_word_index].as_str();
        let target_len = target.unicode_len();
        let no_errors = self.errors.as_str().is_empty();
        if self.current_char_index < target_len {
            if no_errors && target.get_char(self.current_char_index) == c {
                self.user_input.push(c);
                self.current_char_index += 1;
                self.correct_chars_total += 1;
            } else {
                self.errors.push(c);
            }
        } else {
            if c == ' ' && no_errors {
                self.current_word_index += 1;
                self.current_char_index = 0;
                self.user_input.clear();
                self.correct_chars_total += 1;
            } else {
                self.errors.push(c);
            }
        }
        assert(self@ =~= old(self)@.after_char(c));
    }

    /// Takes the backspace key: the last pending error goes, or else the
    /// last matched character; the counters stay.
    pub fn backspace(&mut self)
        ensures
            final(self)@ == old(self)@.after_backspace(),
            old(self)@.wf() ==> final(self)@.wf(),
            final(self).correct_chars_total == old(self).correct_chars_total,
            final(self).typed_chars_total == old(self).typed_chars_total,
            old(self).errors@.len() > 0 ==> {
                &&& final(self).errors@ == old(self).errors@.drop_last()
                &&& final(self).user_input@ == old(self).user_input@
                &&& final(self).current_char_index == old(self).current_char_index
                &&& final(self).current_word_index == old(self).current_word_index
            },
    {
        proof {
            if self@.wf() {
                lemma_after_backspace_keeps_wf(self@);
            }
        }
        if !self.errors.as_str().is_empty() {
            self.errors.pop();
        } else if !self.user_input.as_str().is_empty() {
            self.user_input.pop();
            self.current_char_index = self.current_char_index.saturating_sub(1);
        }
        assert(self@ =~= old(self)@.after_backspace());
    }
}

/// Typing the character that the position asks for, with no error pending,
/// appends it to the matched input, moves the position within the word on
/// by one and counts one more correct keystroke; the number of incorrect
/// keystrokes stays as it was.
pub proof fn law_expected_char_advances(s: GameView, c: char)
    requires
        s.expects(c),
    ensures
        s.after_char(c).char_index == s.char_index + 1,
        s.after_char(c).correct == s.correct + 1,
        s.after_char(c).typed - s.after_char(c).correct == s.typed - s.correct,
        s.after_char(c).input == s.input.push(c),
        s.after_char(c).errors == s.errors,
        s.after_char(c).word_index == s.word_index,
{
}

/// Typing the separator after a word matched to its end, with no error
/// pending, moves to the start of the next word and counts as correct.
pub proof fn law_separator_advances(s: GameView, c: char)
    requires
        s.completes_word(c),
    ensures
        c == ' ',
        s.after_char(c).word_index == s.word_index + 1,
        s.after_char(c).char_index == 0,
        s.after_char(c).input == Seq::<char>::empty(),
        s.after_char(c).correct == s.correct + 1,
        s.after_char(c).typed == s.typed + 1,
{
}

/// While a word is being typed, a character that does not fit the position,
/// or any character typed while an error is pending, is appended to the
/// pending errors and counted as typed, not as correct; the position and
/// the matched input stay.
pub proof fn law_mistyped_char_is_pending(s: GameView, c: char)
    requires
        !s.finished(),
        !s.fits(c) || s.errors.len() > 0,
    ensures
        s.after_char(c).errors == s.errors.push(c),
        s.after_char(c).typed == s.typed + 1,
        s.after_char(c).correct == s.correct,
        s.after_char(c).input == s.input,
        s.after_char(c).char_index == s.char_index,
        s.after_char(c).word_index == s.word_index,
{
}

/// Past the last word a character key is counted as typed and changes
/// nothing else.
pub proof fn law_char_past_the_end_is_counted(s: GameView, c: char)
    requires
        s.finished(),
    ensures
        s.after_char(c) == (GameView { typed: s.typed + 1, ..s }),
{
}

/// With an error pending, backspace removes the last pending character and
/// touches nothing else: not the matched input, not the position, not the
/// counters.
pub proof fn law_backspace_takes_pending_error_first(s: GameView)
    requires
        s.errors.len() > 0,
    ensures
        s.after_backspace() == (GameView { errors: s.errors.drop_last(), ..s }),
{
}

/// Backspace never changes the counters, and a character key never lowers
/// them.
pub proof fn law_counters_are_monotonic(s: GameView, c: char)
    ensures
        s.after_backspace().typed == s.typed,
        s.after_backspace().correct == s.correct,
        s.after_char(c).typed == s.typed + 1,
        s.correct <= s.after_char(c).correct <= s.correct + 1,
{
}

/// A character key keeps the invariant of a session.
pub proof fn lemma_after_char_keeps_wf(s: GameView, c: char)
    requires
        s.wf(),
    ensures
        s.after_char(c).wf(),
{
    let t = s.after_char(c);
    if s.finished() {
    } else if s.expects(c) {
        assert(t.input =~= t.current_word().take(t.char_index));
    } else if s.completes_word(c) {
        if !t.finished() {
            assert(t.input =~= t.current_word().take(0));
        }
    }
}

/// The backspace key keeps the invariant of a session.
pub proof fn lemma_after_backspace_keeps_wf(s: GameView)
    requires
        s.wf(),
    ensures
        s.after_backspace().wf(),
{
    let t = s.after_backspace();
    if s.errors.len() > 0 {
    } else if s.input.len() > 0 {
        assert(t.input =~= t.current_word().take(t.char_index));
    }
}

} // verus!
