//! The loop of a session as a transition function: the front end reads the
//! clock and the terminal, and hands each reading to the session, which
//! answers with what to do next.

use vstd::prelude::*;
use crate::config::{GameConfig, GameType};
use crate::data_loader::{quote_views, texts, Quote};
use crate::game::{GameState, GameView};
use crate::words::{get_words_for_game, quote_texts, selects, SelectionError};

verus! {

/// The keys that a session tells apart.
#[derive(Debug, Clone, Copy, PartialEq, Eq, Structural)]
pub enum KeyCode {
    /// The escape key, which ends the session.
    Esc,
    /// The backspace key.
    Backspace,
    /// A character key.
    Char(char),
    /// Any other key.
    Other,
}

/// What the terminal reports.
#[derive(Debug, Clone, Copy, PartialEq, Eq, Structural)]
pub enum InputEvent {
    /// A key event; `pressed` tells a press from a repeat or a release.
    Key { code: KeyCode, pressed: bool },
    /// The terminal now has this many columns and rows.
    Resize { cols: u16, rows: u16 },
    /// Anything else.
    Other,
}

/// Where a session stands.
#[derive(Debug, Clone, Copy, PartialEq, Eq, Structural)]
pub enum Phase {
    /// The start prompt is shown; the first key starts the clock.
    WaitingToStart,
    /// Keys are matched against the words.
    Playing,
    /// The results are shown; the next key leaves.
    Ended,
}

/// What the front end does after it has handed an event over.
#[derive(Debug, Clone, Copy, PartialEq, Eq, Structural)]
pub enum Action {
    /// Nothing is to be drawn on account of this event.
    Nothing,
    /// Draw the start prompt again.
    ShowPrompt,
    /// The session has started: leave the start prompt.
    Begin,
    /// Draw the typing screen.
    ShowGame,
    /// Go to the next tick at once, without drawing.
    SkipFrame,
    /// Leave the session.
    Exit,
}

/// The milliseconds from the start reading to `now`: zero before the start,
/// and zero if the clock reads less than it did at the start.
pub open spec fn elapsed_since(start_time: Option<u64>, now: u64) -> u64 {
    match start_time {
        Some(start) => if now >= start {
            (now - start) as u64
        } else {
            0
        },
        None => 0,
    }
}

impl GameView {
    /// The phase that the session is in.
    pub open spec fn phase(self) -> Phase {
        if self.game_over {
            Phase::Ended
        } else if self.start_time is None {
            Phase::WaitingToStart
        } else {
            Phase::Playing
        }
    }

    /// The milliseconds played at the clock reading `now`.
    pub open spec fn elapsed(self, now: u64) -> u64 {
        elapsed_since(self.start_time, now)
    }

    /// The duration of a timed session in milliseconds; zero where none is
    /// configured.
    pub open spec fn duration_millis(self) -> int {
        match self.config.time_seconds {
            Some(seconds) => seconds * 1000,
            None => 0,
        }
    }

    /// The number of words to type in a word-count session; zero where none
    /// is configured.
    pub open spec fn target_words(self) -> int {
        match self.config.word_count {
            Some(count) => count as int,
            None => 0,
        }
    }

    /// The session has run its course after `elapsed` milliseconds: the time
    /// is up, the configured number of words is typed, or the quotation is
    /// typed to its last word.
    pub open spec fn end_condition_met(self, elapsed: u64) -> bool {
        match self.config.game_type {
            GameType::Time => elapsed >= self.duration_millis(),
            GameType::Words => self.word_index >= self.target_words(),
            GameType::Quote => self.word_index >= self.words.len(),
        }
    }

    /// The session, over after `elapsed` milliseconds.
    pub open spec fn ended_at(self, elapsed: u64) -> GameView {
        GameView { game_over: true, final_elapsed: Some(elapsed), ..self }
    }

    /// The session, started at the clock reading `now`.
    pub open spec fn started_at(self, now: u64) -> GameView {
        GameView { start_time: Some(now), ..self }
    }

    /// The session after the start of a tick at the clock reading `now`:
    /// a session that is being played ends if its end condition is met, and
    /// nothing else changes.
    pub open spec fn after_tick(self, now: u64) -> GameView {
        if self.phase() == Phase::Playing && self.end_condition_met(self.elapsed(now)) {
            self.ended_at(self.elapsed(now))
        } else {
            self
        }
    }

    /// The session after a key event at the clock reading `now`.
    pub open spec fn after_key(self, code: KeyCode, pressed: bool, now: u64) -> GameView {
        match self.phase() {
            Phase::WaitingToStart => self.started_at(now),
            Phase::Ended => self,
            Phase::Playing => if !pressed {
                self
            } else {
                match code {
                    KeyCode::Esc => self.ended_at(self.elapsed(now)),
                    KeyCode::Backspace => self.after_backspace(),
                    KeyCode::Char(c) => self.after_char(c),
                    KeyCode::Other => self,
                }
            },
        }
    }

    /// What the front end is to do after a key event.
    pub open spec fn action_for_key(self, code: KeyCode, pressed: bool) -> Action {
        match self.phase() {
            Phase::WaitingToStart => Action::Begin,
            Phase::Ended => Action::Exit,
            Phase::Playing => if pressed && code is Char && self.finished() {
                Action::SkipFrame
            } else {
                Action::ShowGame
            },
        }
    }
}

/// The milliseconds to wait for an event before the start.
pub const IDLE_POLL_MILLIS: u64 = 500;

/// The milliseconds to wait for an event while playing and after the end.
pub const ACTIVE_POLL_MILLIS: u64 = 100;

/// The milliseconds to wait for an event in a phase: longer while nothing
/// moves on the screen.
pub fn poll_millis(phase: Phase) -> (millis: u64)
    ensures
        millis == if phase == Phase::WaitingToStart {
            IDLE_POLL_MILLIS
        } else {
            ACTIVE_POLL_MILLIS
        },
{
    match phase {
        Phase::WaitingToStart => IDLE_POLL_MILLIS,
        _ => ACTIVE_POLL_MILLIS,
    }
}

/// What the start of a game may return for a configuration and the two
/// corpora: a game that has not started, on words that the selection may
/// return, of which there is at least one; or the failure of the
/// selection; or the failure to have a word where the selection may return
/// none.
pub open spec fn starts(
    config: GameConfig,
    all_words: Seq<String>,
    all_quotes: Seq<Quote>,
    result: Result<GameView, SelectionError>,
) -> bool {
    match result {
        Ok(game) => {
            &&& game == GameView::initial(
                config,
                texts(all_words),
                quote_views(all_quotes),
                game.words,
            )
            &&& game.words.len() > 0
            &&& selects(config, texts(all_words), quote_texts(all_quotes), Ok(game.words))
        },
        Err(SelectionError::EmptySelection) => selects(
            config,
            texts(all_words),
            quote_texts(all_quotes),
            Ok(Seq::empty()),
        ),
        Err(error) => selects(config, texts(all_words), quote_texts(all_quotes), Err(error)),
    }
}

/// Selects the words of a session and sets the game up on them. Fails
/// where the selection fails, and where it holds no word.
pub fn start_game(config: GameConfig, all_words: Vec<String>, all_quotes: Vec<Quote>) -> (result: Result<
    GameState,
    SelectionError,
>)
    ensures
        starts(
            config,
            all_words@,
            all_quotes@,
            match result {
                Ok(state) => Ok(state@),
                Err(error) => Err(error),
            },
        ),
        result is Ok ==> result->Ok_0@.wf(),
{
    match get_words_for_game(&config, all_words.as_slice(), all_quotes.as_slice()) {
        Err(error) => Err(error),
        Ok(words) => {
            if words.len() == 0 {
                assert(texts(words@) =~= Seq::<Seq<char>>::empty());
                Err(SelectionError::EmptySelection)
            } else {
                Ok(GameState::new(config, all_words, all_quotes, words))
            }
        },
    }
}

/// A running session: the state of the game and the size of the terminal
/// as last reported.
#[derive(Debug)]
pub struct Session {
    /// The state of the game.
    pub state: GameState,
    /// The columns of the terminal.
    pub term_cols: u16,
    /// The rows of the terminal.
    pub term_rows: u16,
}

/// A running session as plain mathematical values.
#[verifier::ext_equal]
pub struct SessionView {
    pub game: GameView,
    pub cols: u16,
    pub rows: u16,
}

impl SessionView {
    /// The session after `event` at the clock reading `now`. A resize only
    /// replaces the recorded size, whatever the phase.
    pub open spec fn after_event(self, event: InputEvent, now: u64) -> SessionView {
        match event {
            InputEvent::Key { code, pressed } => SessionView {
                game: self.game.after_key(code, pressed, now),
                ..self
            },
            InputEvent::Resize { cols, rows } => SessionView { cols, rows, ..self },
            InputEvent::Other => self,
        }
    }

    /// `event` is a keystroke that is counted: a character key pressed
    /// while the session is being played.
    pub open spec fn counts_keystroke(self, event: InputEvent) -> bool {
        &&& self.game.phase() == Phase::Playing
        &&& event matches InputEvent::Key { code, pressed } && pressed && code is Char
    }

    /// What the front end is to do after `event`.
    pub open spec fn action_for(self, event: InputEvent) -> Action {
        match event {
            InputEvent::Key { code, pressed } => self.game.action_for_key(code, pressed),
            _ => match self.game.phase() {
                Phase::WaitingToStart => if event is Resize {
                    Action::ShowPrompt
                } else {
                    Action::Nothing
                },
                Phase::Playing => Action::ShowGame,
                Phase::Ended => Action::Nothing,
            },
        }
    }
}

impl View for Session {
    type V = SessionView;

    open spec fn view(&self) -> SessionView {
        SessionView { game: self.state@, cols: self.term_cols, rows: self.term_rows }
    }
}

impl GameState {
    /// The phase that the session is in.
    pub fn phase(&self) -> (phase: Phase)
        ensures
            phase == self@.phase(),
    {
        if self.game_over {
            Phase::Ended
        } else if self.start_time.is_none() {
            Phase::WaitingToStart
        } else {
            Phase::Playing
        }
    }

    /// The milliseconds played at the clock reading `now`.
    pub fn elapsed_millis(&self, now: u64) -> (elapsed: u64)
        ensures
            elapsed == self@.elapsed(now),
    {
        match self.start_time {
            Some(start) => if now >= start {
                now - start
            } else {
                0
            },
            None => 0,
        }
    }

    /// Whether the session has run its course after `elapsed` milliseconds.
    pub fn end_condition_met(&self, elapsed: u64) -> (met: bool)
        ensures
            met == self@.end_condition_met(elapsed),
    {
        match self.config.game_type {
            GameType::Time => {
                let duration: u64 = match self.config.time_seconds {
                    Some(seconds) => seconds as u64 * 1000,
                    None => 0,
                };
                elapsed >= duration
            },
            GameType::Words => {
                let target: u32 = match self.config.word_count {
                    Some(count) => count,
                    None => 0,
                };
                self.current_word_index as u128 >= target as u128
            },
            GameType::Quote => self.current_word_index >= self.words_to_type.len(),
        }
    }

    /// Ends the session and records the milliseconds that it took.
    pub fn end(&mut self, elapsed: u64)
        ensures
            final(self)@ == old(self)@.ended_at(elapsed),
            old(self)@.wf() ==> final(self)@.wf(),
    {
        self.game_over = true;
        self.final_elapsed_time_millis = Some(elapsed);
        assert(self@ =~= old(self)@.ended_at(elapsed));
    }
}

impl Session {
    /// A session that waits for its first key, on a terminal of the given
    /// size.
    pub fn new(state: GameState, term_cols: u16, term_rows: u16) -> (session: Session)
        ensures
            session@ == (SessionView { game: state@, cols: term_cols, rows: term_rows }),
    {
        Session { state, term_cols, term_rows }
    }

    /// The phase that the session is in.
    pub fn phase(&self) -> (phase: Phase)
        ensures
            phase == self@.game.phase(),
    {
        self.state.phase()
    }

    /// Starts a tick at the clock reading `now`: a session that is being
    /// played is ended if its end condition is met. Returns the phase in
    /// which the rest of the tick runs.
    pub fn tick(&mut self, now: u64) -> (phase: Phase)
        ensures
            final(self)@ == (SessionView { game: old(self)@.game.after_tick(now), ..old(self)@ }),
            phase == final(self)@.game.phase(),
            old(self)@.game.wf() ==> final(self)@.game.wf(),
    {
        if !self.state.game_over && self.state.start_time.is_some() {
            let elapsed = self.state.elapsed_millis(now);
            if self.state.end_condition_met(elapsed) {
                self.state.end(elapsed);
            }
        }
        self.state.phase()
    }

    /// Whether `event` is a keystroke that is counted: a character key
    /// pressed while the session is being played.
    pub fn counts_keystroke(&self, event: InputEvent) -> (counted: bool)
        ensures
            counted == self@.counts_keystroke(event),
    {
        match event {
            InputEvent::Key { code: KeyCode::Char(_), pressed } => pressed && self.state.phase()
                == Phase::Playing,
            _ => false,
        }
    }

    /// Takes one event at the clock reading `now` and says what to do next.
    /// Both counters must have room for one more where the event is a
    /// keystroke that is counted.
    ///
    /// Before the start any key starts the clock. While playing, a pressed
    /// key is matched against the words, and escape ends the session.
    /// After the end any key leaves. A resize is recorded in every phase and
    /// never touches the progress.
    pub fn handle_event(&mut self, event: InputEvent, now: u64) -> (action: Action)
        requires
            old(self)@.counts_keystroke(event) ==> old(self).state.typed_chars_total < usize::MAX
                && old(self).state.correct_chars_total < usize::MAX,
        ensures
            final(self)@ == old(self)@.after_event(event, now),
            action == old(self)@.action_for(event),
            old(self)@.game.wf() ==> final(self)@.game.wf(),
    {
        let phase = self.state.phase();
        match event {
            InputEvent::Key { code, pressed } => match phase {
                Phase::WaitingToStart => {
                    self.state.start_time = Some(now);
                    assert(self@.game =~= old(self)@.game.started_at(now));
                    Action::Begin
                },
                Phase::Ended => Action::Exit,
                Phase::Playing => {
                    if !pressed {
                        return Action::ShowGame;
                    }
                    match code {
                        KeyCode::Esc => {
                            let elapsed = self.state.elapsed_millis(now);
                            self.state.end(elapsed);
                            Action::ShowGame
                        },
                        KeyCode::Backspace => {
                            self.state.backspace();
                            Action::ShowGame
                        },
                        KeyCode::Char(c) => {
                            let past_the_end = self.state.current_word_index
                                >= self.state.words_to_type.len();
                            self.state.type_char(c);
                            if past_the_end {
                                Action::SkipFrame
                            } else {
                                Action::ShowGame
                            }
                        },
                        KeyCode::Other => Action::ShowGame,
                    }
                },
            },
            InputEvent::Resize { cols, rows } => {
                self.term_cols = cols;
                self.term_rows = rows;
                match phase {
                    Phase::WaitingToStart => Action::ShowPrompt,
                    Phase::Playing => Action::ShowGame,
                    Phase::Ended => Action::Nothing,
                }
            },
            InputEvent::Other => match phase {
                Phase::Playing => Action::ShowGame,
                _ => Action::Nothing,
            },
        }
    }

    /// Records the size that the terminal reports at the end of a tick.
    pub fn sync_size(&mut self, cols: u16, rows: u16)
        ensures
            final(self)@ == (SessionView { cols, rows, ..old(self)@ }),
    {
        self.term_cols = cols;
        self.term_rows = rows;
    }
}

/// The place of a phase in the course of a session.
pub open spec fn phase_rank(phase: Phase) -> int {
    match phase {
        Phase::WaitingToStart => 0,
        Phase::Playing => 1,
        Phase::Ended => 2,
    }
}

/// A resize replaces the recorded size and leaves the game as it is, in
/// every phase.
pub proof fn law_resize_keeps_progress(s: SessionView, cols: u16, rows: u16, now: u64)
    ensures
        s.after_event(InputEvent::Resize { cols, rows }, now) == (SessionView { cols, rows, ..s }),
        s.after_event(InputEvent::Resize { cols, rows }, now).game == s.game,
{
}

/// A session never goes back to an earlier phase: not by an event, not by
/// a tick.
pub proof fn law_phases_move_forward(s: SessionView, event: InputEvent, now: u64)
    ensures
        phase_rank(s.game.phase()) <= phase_rank(s.after_event(event, now).game.phase()),
        phase_rank(s.game.phase()) <= phase_rank(s.game.after_tick(now).phase()),
{
}

/// Once a session has ended, no event and no tick changes the game, and
/// any key leaves.
pub proof fn law_ended_is_final(s: SessionView, event: InputEvent, now: u64)
    requires
        s.game.phase() == Phase::Ended,
    ensures
        s.after_event(event, now).game == s.game,
        s.game.after_tick(now) == s.game,
        event is Key ==> s.action_for(event) == Action::Exit,
{
}

/// Before the start any key starts the clock at the reading at hand and
/// nothing else moves; a tick does nothing.
pub proof fn law_first_key_starts(s: SessionView, code: KeyCode, pressed: bool, now: u64)
    requires
        s.game.phase() == Phase::WaitingToStart,
    ensures
        s.after_event(InputEvent::Key { code, pressed }, now).game == s.game.started_at(now),
        s.after_event(InputEvent::Key { code, pressed }, now).game.phase() == Phase::Playing,
        s.action_for(InputEvent::Key { code, pressed }) == Action::Begin,
        s.game.after_tick(now) == s.game,
{
}

/// While a session is being played, pressing the key of the character that
/// the position asks for, with no error pending, appends it to the matched
/// input, moves the position within the word on by one and counts one more
/// correct keystroke; the number of incorrect keystrokes, the pending
/// errors and the current word stay as they were.
pub proof fn law_expected_key_advances(s: SessionView, c: char, now: u64)
    requires
        s.game.phase() == Phase::Playing,
        s.game.expects(c),
    ensures
        ({
            let event = InputEvent::Key { code: KeyCode::Char(c), pressed: true };
            let after = s.after_event(event, now).game;
            &&& after.char_index == s.game.char_index + 1
            &&& after.correct == s.game.correct + 1
            &&& after.typed - after.correct == s.game.typed - s.game.correct
            &&& after.input == s.game.input.push(c)
            &&& after.errors == s.game.errors
            &&& after.word_index == s.game.word_index
            &&& after.phase() == Phase::Playing
            &&& s.action_for(event) == Action::ShowGame
        }),
{
}

/// While a word of a session that is being played is typed, pressing the
/// key of a character that does not fit the position, or of any character
/// while an error is pending, appends it to the pending errors and counts
/// it as typed, not as correct; the matched input and the position stay.
pub proof fn law_mistyped_key_is_pending(s: SessionView, c: char, now: u64)
    requires
        s.game.phase() == Phase::Playing,
        !s.game.finished(),
        !s.game.fits(c) || s.game.errors.len() > 0,
    ensures
        ({
            let event = InputEvent::Key { code: KeyCode::Char(c), pressed: true };
            let after = s.after_event(event, now).game;
            &&& after.errors == s.game.errors.push(c)
            &&& after.typed == s.game.typed + 1
            &&& after.correct == s.game.correct
            &&& after.input == s.game.input
            &&& after.char_index == s.game.char_index
            &&& after.word_index == s.game.word_index
            &&& s.action_for(event) == Action::ShowGame
        }),
{
}

/// While a session is being played with an error pending, pressing
/// backspace removes the last pending character and touches nothing else.
pub proof fn law_backspace_key_takes_pending_error(s: SessionView, now: u64)
    requires
        s.game.phase() == Phase::Playing,
        s.game.errors.len() > 0,
    ensures
        ({
            let event = InputEvent::Key { code: KeyCode::Backspace, pressed: true };
            s.after_event(event, now).game == (GameView {
                errors: s.game.errors.drop_last(),
                ..s.game
            })
        }),
{
}

/// A timed session that is being played ends at the tick at which the
/// time played reaches its duration, and not before; the time played is
/// recorded.
pub proof fn law_timed_session_ends_on_time(game: GameView, now: u64)
    requires
        game.phase() == Phase::Playing,
        game.config.game_type == GameType::Time,
    ensures
        game.after_tick(now).game_over <==> game.elapsed(now) >= game.duration_millis(),
        game.after_tick(now).game_over ==> game.after_tick(now).final_elapsed == Some(
            game.elapsed(now),
        ),
{
}

/// A tick and an event keep the invariant of a session.
pub proof fn law_session_keeps_invariant(s: SessionView, event: InputEvent, now: u64)
    requires
        s.game.wf(),
    ensures
        s.game.after_tick(now).wf(),
        s.after_event(event, now).game.wf(),
{
    match event {
        InputEvent::Key { code, pressed } => {
            match code {
                KeyCode::Char(c) => {
                    crate::game::lemma_after_char_keeps_wf(s.game, c);
                },
                KeyCode::Backspace => {
                    crate::game::lemma_after_backspace_keeps_wf(s.game);
                },
                _ => {},
            }
        },
        _ => {},
    }
}

} // verus!
