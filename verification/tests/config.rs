use monk_minal::config::{
    apply_choice, first_prompt, prompt_default, prompt_items, prompt_title, time_limit_at,
    word_count_at, Difficulty, GameConfig, GameType, MenuStep, Prompt,
};

#[test]
fn the_default_configuration_is_thirty_seconds_of_medium_words() {
    let config = GameConfig::new();
    assert_eq!(config.game_type, GameType::Time);
    assert_eq!(config.time_seconds, Some(30));
    assert_eq!(config.word_count, None);
    assert_eq!(config.difficulty, Difficulty::Medium);
}

#[test]
fn the_menu_lists_what_is_on_offer() {
    assert_eq!(first_prompt(), Prompt::GameType);
    assert_eq!(prompt_items(Prompt::GameType), vec!["Time", "Words", "Quote"]);
    assert_eq!(prompt_items(Prompt::TimeLimit), vec!["15s", "30s", "60s", "120s"]);
    assert_eq!(prompt_items(Prompt::WordCount), vec!["10", "20", "30", "40", "50"]);
    assert_eq!(prompt_items(Prompt::Difficulty), vec!["Easy", "Medium", "Hard"]);
    assert_eq!(prompt_title(Prompt::GameType), "Pick a game type:");
    assert_eq!(prompt_title(Prompt::TimeLimit), "Pick a time limit:");
    assert_eq!(prompt_title(Prompt::WordCount), "Pick a number of words:");
    assert_eq!(prompt_title(Prompt::Difficulty), "Pick a difficulty:");
    assert_eq!(prompt_default(Prompt::GameType), 0);
    assert_eq!(prompt_default(Prompt::TimeLimit), 1);
    assert_eq!(prompt_default(Prompt::WordCount), 1);
    assert_eq!(prompt_default(Prompt::Difficulty), 1);
}

#[test]
fn the_answers_stand_for_these_values() {
    let limits: Vec<Option<u32>> = (0..5).map(time_limit_at).collect();
    assert_eq!(limits, vec![Some(15), Some(30), Some(60), Some(120), None]);
    let counts: Vec<Option<u32>> = (0..6).map(word_count_at).collect();
    assert_eq!(counts, vec![Some(10), Some(20), Some(30), Some(40), Some(50), None]);
}

#[test]
fn a_timed_session_is_configured_in_three_answers() {
    let mut config = GameConfig::new();
    assert_eq!(apply_choice(&mut config, Prompt::GameType, 0), Some(MenuStep::Ask(Prompt::TimeLimit)));
    assert_eq!(apply_choice(&mut config, Prompt::TimeLimit, 3), Some(MenuStep::Ask(Prompt::Difficulty)));
    assert_eq!(apply_choice(&mut config, Prompt::Difficulty, 2), Some(MenuStep::Done));
    assert_eq!(config.game_type, GameType::Time);
    assert_eq!(config.time_seconds, Some(120));
    assert_eq!(config.word_count, None);
    assert_eq!(config.difficulty, Difficulty::Hard);
}

#[test]
fn a_session_of_words_is_configured_in_three_answers() {
    let mut config = GameConfig::new();
    assert_eq!(apply_choice(&mut config, Prompt::GameType, 1), Some(MenuStep::Ask(Prompt::WordCount)));
    assert_eq!(config.game_type, GameType::Words);
    assert_eq!(apply_choice(&mut config, Prompt::WordCount, 0), Some(MenuStep::Ask(Prompt::Difficulty)));
    assert_eq!(apply_choice(&mut config, Prompt::Difficulty, 0), Some(MenuStep::Done));
    assert_eq!(config.game_type, GameType::Words);
    assert_eq!(config.time_seconds, None);
    assert_eq!(config.word_count, Some(10));
    assert_eq!(config.difficulty, Difficulty::Easy);
}

#[test]
fn a_session_on_a_quotation_is_configured_in_two_answers() {
    let mut config = GameConfig::new();
    assert_eq!(apply_choice(&mut config, Prompt::GameType, 2), Some(MenuStep::Ask(Prompt::Difficulty)));
    assert_eq!(config.time_seconds, None);
    assert_eq!(config.word_count, None);
    assert_eq!(apply_choice(&mut config, Prompt::Difficulty, 1), Some(MenuStep::Done));
    assert_eq!(config.game_type, GameType::Quote);
    assert_eq!(config.difficulty, Difficulty::Medium);
}

#[test]
fn every_way_through_the_menu_sets_exactly_the_parameter_of_the_kind() {
    for kind in 0..3usize {
        for parameter in 0..5usize {
            for difficulty in 0..3usize {
                let mut config = GameConfig::new();
                let mut step = apply_choice(&mut config, first_prompt(), kind);
                while let Some(MenuStep::Ask(prompt)) = step {
                    let answer = if prompt == Prompt::Difficulty { difficulty } else { parameter };
                    let answer = answer % prompt_items(prompt).len();
                    step = apply_choice(&mut config, prompt, answer);
                }
                assert_eq!(step, Some(MenuStep::Done));
                assert_eq!(config.time_seconds.is_some(), config.game_type == GameType::Time);
                assert_eq!(config.word_count.is_some(), config.game_type == GameType::Words);
            }
        }
    }
}

#[test]
fn an_answer_that_is_not_on_offer_changes_nothing() {
    for (prompt, beyond) in [
        (Prompt::GameType, 3usize),
        (Prompt::TimeLimit, 4),
        (Prompt::WordCount, 5),
        (Prompt::Difficulty, 3),
    ] {
        let mut config = GameConfig::new();
        assert_eq!(apply_choice(&mut config, prompt, beyond), None);
        assert_eq!(apply_choice(&mut config, prompt, usize::MAX), None);
        assert_eq!(config.game_type, GameType::Time);
        assert_eq!(config.time_seconds, Some(30));
        assert_eq!(config.word_count, None);
        assert_eq!(config.difficulty, Difficulty::Medium);
    }
}
