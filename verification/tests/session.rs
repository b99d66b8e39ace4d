use monk_minal::config::{Difficulty, GameConfig, GameType};
use monk_minal::game::GameState;
use monk_minal::data_loader::Quote;
use monk_minal::session::{
    poll_millis, start_game, Action, InputEvent, KeyCode, Phase, Session,
};
use monk_minal::words::SelectionError;

fn strings(items: &[&str]) -> Vec<String> {
    items.iter().map(|w| w.to_string()).collect()
}

fn timed(seconds: Option<u32>) -> GameConfig {
    GameConfig {
        game_type: GameType::Time,
        time_seconds: seconds,
        word_count: None,
        difficulty: Difficulty::Medium,
    }
}

fn counted(count: Option<u32>) -> GameConfig {
    GameConfig {
        game_type: GameType::Words,
        time_seconds: None,
        word_count: count,
        difficulty: Difficulty::Medium,
    }
}

fn quoted() -> GameConfig {
    GameConfig {
        game_type: GameType::Quote,
        time_seconds: None,
        word_count: None,
        difficulty: Difficulty::Medium,
    }
}

fn session(config: GameConfig, words: &[&str]) -> Session {
    Session::new(GameState::new(config, Vec::new(), Vec::new(), strings(words)), 80, 24)
}

fn press(code: KeyCode) -> InputEvent {
    InputEvent::Key { code, pressed: true }
}

fn play(session: &mut Session, text: &str, now: u64) {
    for c in text.chars() {
        session.handle_event(press(KeyCode::Char(c)), now);
    }
}

#[test]
fn a_timed_session_ends_exactly_at_its_duration() {
    let state = GameState::new(timed(Some(15)), Vec::new(), Vec::new(), strings(&["a"]));
    assert!(state.end_condition_met(15_000));
    assert!(state.end_condition_met(15_001));
    assert!(!state.end_condition_met(14_999));
    assert!(!state.end_condition_met(0));
}

#[test]
fn a_timed_session_without_a_duration_ends_at_once() {
    let state = GameState::new(timed(None), Vec::new(), Vec::new(), strings(&["a"]));
    assert!(state.end_condition_met(0));
}

#[test]
fn a_word_count_session_ends_when_the_target_is_reached() {
    let words: Vec<String> = (0..12).map(|i| format!("w{}", i)).collect();
    let mut state = GameState::new(counted(Some(10)), Vec::new(), Vec::new(), words);
    state.current_word_index = 9;
    assert!(!state.end_condition_met(1_000_000));
    state.current_word_index = 10;
    assert!(state.end_condition_met(0));
    state.current_word_index = 11;
    assert!(state.end_condition_met(0));
}

#[test]
fn a_quote_session_ends_after_its_last_word() {
    let mut state = GameState::new(quoted(), Vec::new(), Vec::new(), strings(&["a", "b"]));
    assert!(!state.end_condition_met(99_999));
    state.current_word_index = 1;
    assert!(!state.end_condition_met(99_999));
    state.current_word_index = 2;
    assert!(state.end_condition_met(0));
}

#[test]
fn elapsed_time_counts_from_the_first_key() {
    let mut state = GameState::new(quoted(), Vec::new(), Vec::new(), strings(&["a"]));
    assert_eq!(state.elapsed_millis(5_000), 0);
    state.start_time = Some(1_000);
    assert_eq!(state.elapsed_millis(5_000), 4_000);
    assert_eq!(state.elapsed_millis(1_000), 0);
    assert_eq!(state.elapsed_millis(999), 0);
}

#[test]
fn any_key_starts_a_waiting_session() {
    for event in [
        press(KeyCode::Char('x')),
        press(KeyCode::Esc),
        press(KeyCode::Backspace),
        InputEvent::Key { code: KeyCode::Other, pressed: false },
    ] {
        let mut s = session(quoted(), &["hi"]);
        assert_eq!(s.phase(), Phase::WaitingToStart);
        assert_eq!(s.tick(500), Phase::WaitingToStart);
        assert_eq!(s.handle_event(event, 700), Action::Begin);
        assert_eq!(s.phase(), Phase::Playing);
        assert_eq!(s.state.start_time, Some(700));
        assert_eq!(s.state.typed_chars_total, 0);
        assert_eq!(s.state.user_input, "");
        assert!(!s.state.game_over);
    }
}

#[test]
fn other_events_leave_a_waiting_session_waiting() {
    let mut s = session(quoted(), &["hi"]);
    assert_eq!(s.handle_event(InputEvent::Other, 10), Action::Nothing);
    assert_eq!(s.handle_event(InputEvent::Resize { cols: 100, rows: 40 }, 20), Action::ShowPrompt);
    assert_eq!(s.phase(), Phase::WaitingToStart);
    assert_eq!((s.term_cols, s.term_rows), (100, 40));
    assert_eq!(s.state.start_time, None);
}

#[test]
fn a_quote_session_runs_from_start_to_exit() {
    let mut s = session(quoted(), &["hi", "yo"]);
    s.handle_event(press(KeyCode::Char(' ')), 1_000);
    assert_eq!(s.tick(1_100), Phase::Playing);
    assert_eq!(s.handle_event(press(KeyCode::Char('h')), 1_100), Action::ShowGame);
    assert_eq!(s.handle_event(press(KeyCode::Char('x')), 1_200), Action::ShowGame);
    assert_eq!(s.state.errors, "x");
    assert_eq!(s.handle_event(press(KeyCode::Backspace), 1_300), Action::ShowGame);
    assert_eq!(s.state.errors, "");
    play(&mut s, "i yo", 1_400);
    assert_eq!(s.tick(1_500), Phase::Playing);
    assert_eq!(s.handle_event(press(KeyCode::Char(' ')), 1_500), Action::ShowGame);
    assert_eq!(s.state.current_word_index, 2);
    assert_eq!(s.tick(4_000), Phase::Ended);
    assert!(s.state.game_over);
    assert_eq!(s.state.final_elapsed_time_millis, Some(3_000));
    assert_eq!(s.state.correct_chars_total, 6);
    assert_eq!(s.state.typed_chars_total, 7);
    assert_eq!(s.handle_event(InputEvent::Other, 4_100), Action::Nothing);
    assert_eq!(s.handle_event(InputEvent::Resize { cols: 10, rows: 5 }, 4_200), Action::Nothing);
    assert_eq!((s.term_cols, s.term_rows), (10, 5));
    assert_eq!(s.tick(9_000), Phase::Ended);
    assert_eq!(s.state.final_elapsed_time_millis, Some(3_000));
    assert_eq!(s.handle_event(press(KeyCode::Char('q')), 9_000), Action::Exit);
    assert_eq!(s.state.typed_chars_total, 7);
}

#[test]
fn a_timed_session_ends_by_the_clock() {
    let mut s = session(timed(Some(15)), &["hi", "yo"]);
    s.handle_event(press(KeyCode::Char('a')), 2_000);
    assert_eq!(s.tick(16_999), Phase::Playing);
    assert!(!s.state.game_over);
    assert_eq!(s.tick(17_000), Phase::Ended);
    assert_eq!(s.state.final_elapsed_time_millis, Some(15_000));
}

#[test]
fn a_word_count_session_ends_at_its_target() {
    let mut s = session(counted(Some(2)), &["a", "b", "c"]);
    s.handle_event(press(KeyCode::Char('a')), 0);
    play(&mut s, "a ", 10);
    assert_eq!(s.tick(20), Phase::Playing);
    play(&mut s, "b ", 30);
    assert_eq!(s.state.current_word_index, 2);
    assert_eq!(s.tick(40), Phase::Ended);
    assert_eq!(s.state.final_elapsed_time_millis, Some(40));
}

#[test]
fn escape_ends_a_session_that_is_being_played() {
    let mut s = session(timed(Some(60)), &["hi"]);
    s.handle_event(press(KeyCode::Char('a')), 100);
    play(&mut s, "h", 200);
    assert_eq!(s.handle_event(press(KeyCode::Esc), 2_600), Action::ShowGame);
    assert!(s.state.game_over);
    assert_eq!(s.state.final_elapsed_time_millis, Some(2_500));
    assert_eq!(s.phase(), Phase::Ended);
    assert_eq!(s.tick(2_700), Phase::Ended);
    assert_eq!(s.state.user_input, "h");
}

#[test]
fn only_pressed_keys_are_typed() {
    let mut s = session(timed(Some(60)), &["hi"]);
    s.handle_event(press(KeyCode::Char('a')), 0);
    let released = InputEvent::Key { code: KeyCode::Char('h'), pressed: false };
    assert_eq!(s.handle_event(released, 10), Action::ShowGame);
    assert_eq!(s.state.typed_chars_total, 0);
    let released = InputEvent::Key { code: KeyCode::Esc, pressed: false };
    assert_eq!(s.handle_event(released, 10), Action::ShowGame);
    assert!(!s.state.game_over);
    assert_eq!(s.handle_event(press(KeyCode::Other), 10), Action::ShowGame);
    assert_eq!(s.state.typed_chars_total, 0);
    assert_eq!(s.handle_event(InputEvent::Other, 10), Action::ShowGame);
}

#[test]
fn a_resize_never_touches_the_progress() {
    let mut s = session(timed(Some(60)), &["hi", "yo"]);
    s.handle_event(press(KeyCode::Char('a')), 0);
    play(&mut s, "hx", 10);
    assert_eq!(s.handle_event(InputEvent::Resize { cols: 132, rows: 50 }, 20), Action::ShowGame);
    assert_eq!((s.term_cols, s.term_rows), (132, 50));
    assert_eq!(s.state.user_input, "h");
    assert_eq!(s.state.errors, "x");
    assert_eq!(s.state.current_char_index, 1);
    assert_eq!(s.state.typed_chars_total, 2);
    assert_eq!(s.state.correct_chars_total, 1);
    assert_eq!(s.state.start_time, Some(0));
    s.sync_size(81, 25);
    assert_eq!((s.term_cols, s.term_rows), (81, 25));
    assert_eq!(s.state.errors, "x");
}

#[test]
fn a_key_past_the_last_word_skips_the_frame() {
    let mut s = session(counted(Some(5)), &["a"]);
    s.handle_event(press(KeyCode::Char('a')), 0);
    play(&mut s, "a ", 10);
    assert_eq!(s.state.current_word_index, 1);
    assert_eq!(s.tick(20), Phase::Playing);
    assert_eq!(s.handle_event(press(KeyCode::Char('z')), 20), Action::SkipFrame);
    assert_eq!(s.state.typed_chars_total, 3);
    assert_eq!(s.state.correct_chars_total, 2);
    assert_eq!(s.state.errors, "");
    assert_eq!(s.handle_event(press(KeyCode::Backspace), 20), Action::ShowGame);
}

#[test]
fn a_game_starts_on_the_words_selected() {
    let corpus = strings(&["cat", "banana", "dog"]);
    let quotes = vec![Quote { text: "to be".to_string(), source: "x".to_string() }];
    let mut config = counted(Some(2));
    config.difficulty = Difficulty::Easy;
    let state = start_game(config, corpus.clone(), quotes.clone()).unwrap();
    let mut words = state.words_to_type.clone();
    words.sort();
    assert_eq!(words, strings(&["cat", "dog"]));
    assert_eq!(state.all_loaded_words, corpus);
    assert_eq!(state.all_loaded_quotes.len(), 1);
    assert_eq!(state.all_loaded_quotes[0].text, "to be");
    assert_eq!(state.config.word_count, Some(2));
    assert_eq!(state.current_word_index, 0);
    assert_eq!(state.typed_chars_total, 0);
    assert_eq!(state.start_time, None);
    assert!(!state.game_over);
    let state = start_game(quoted(), corpus, quotes).unwrap();
    assert_eq!(state.words_to_type, strings(&["to", "be"]));
}

#[test]
fn a_game_does_not_start_without_words() {
    let blank = vec![Quote { text: " \n ".to_string(), source: "x".to_string() }];
    let failed = |config, words: &[&str], quotes: &Vec<Quote>| {
        start_game(config, strings(words), quotes.clone()).map(|_| ()).unwrap_err()
    };
    assert_eq!(failed(quoted(), &["cat"], &blank), SelectionError::EmptySelection);
    assert_eq!(failed(quoted(), &["cat"], &Vec::new()), SelectionError::NoQuotes);
    assert_eq!(failed(counted(Some(5)), &[], &blank), SelectionError::NoWords);
    assert_eq!(failed(timed(Some(5)), &[], &blank), SelectionError::NoWords);
    assert_eq!(
        failed(counted(Some(0)), &["cat"], &blank),
        SelectionError::NothingSelectable { count: 0, available: 1 }
    );
}

#[test]
fn the_wait_for_an_event_is_longer_before_the_start() {
    assert_eq!(poll_millis(Phase::WaitingToStart), 500);
    assert_eq!(poll_millis(Phase::Playing), 100);
    assert_eq!(poll_millis(Phase::Ended), 100);
}

#[test]
fn only_a_pressed_character_key_while_playing_is_counted() {
    let mut s = session(quoted(), &["hi"]);
    let key = press(KeyCode::Char('h'));
    assert!(!s.counts_keystroke(key));
    s.handle_event(key, 0);
    assert!(s.counts_keystroke(key));
    assert!(!s.counts_keystroke(InputEvent::Key { code: KeyCode::Char('h'), pressed: false }));
    assert!(!s.counts_keystroke(press(KeyCode::Backspace)));
    assert!(!s.counts_keystroke(press(KeyCode::Esc)));
    assert!(!s.counts_keystroke(press(KeyCode::Other)));
    assert!(!s.counts_keystroke(InputEvent::Resize { cols: 1, rows: 1 }));
    assert!(!s.counts_keystroke(InputEvent::Other));
    s.handle_event(press(KeyCode::Esc), 10);
    assert!(!s.counts_keystroke(key));
}

#[test]
fn full_counters_stand_in_the_way_of_no_other_event() {
    let mut s = session(timed(Some(60)), &["hi"]);
    s.state.typed_chars_total = usize::MAX;
    s.state.correct_chars_total = usize::MAX;
    assert_eq!(s.handle_event(press(KeyCode::Char('a')), 0), Action::Begin);
    assert_eq!(s.handle_event(InputEvent::Resize { cols: 9, rows: 9 }, 1), Action::ShowGame);
    assert_eq!(s.handle_event(press(KeyCode::Backspace), 2), Action::ShowGame);
    let released = InputEvent::Key { code: KeyCode::Char('h'), pressed: false };
    assert_eq!(s.handle_event(released, 3), Action::ShowGame);
    assert_eq!(s.handle_event(press(KeyCode::Esc), 4), Action::ShowGame);
    assert_eq!(s.handle_event(press(KeyCode::Char('q')), 5), Action::Exit);
    assert_eq!(s.state.typed_chars_total, usize::MAX);
    assert_eq!(s.state.correct_chars_total, usize::MAX);
}
