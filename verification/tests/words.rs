use monk_minal::config::{Difficulty, GameConfig, GameType};
use monk_minal::data_loader::{AllWords, Quote};
use monk_minal::words::{
    count_for, difficulty_admits, falls_back, filter_by_difficulty, get_words_for_game, pool_for,
    quote_words, SelectionError,
};

fn strings(items: &[&str]) -> Vec<String> {
    items.iter().map(|w| w.to_string()).collect()
}

fn quote(text: &str) -> Quote {
    Quote { text: text.to_string(), source: "someone".to_string() }
}

fn config(game_type: GameType, word_count: Option<u32>, difficulty: Difficulty) -> GameConfig {
    let time_seconds = if game_type == GameType::Time { Some(30) } else { None };
    GameConfig { game_type, time_seconds, word_count, difficulty }
}

fn is_sample_of(chosen: &[String], pool: &[String]) -> bool {
    let mut left: Vec<String> = pool.to_vec();
    for word in chosen {
        match left.iter().position(|w| w == word) {
            Some(at) => {
                left.remove(at);
            }
            None => return false,
        }
    }
    true
}

#[test]
fn easy_keeps_words_of_at_most_five_characters() {
    let corpus = strings(&["cat", "banana", "dog", "elephant"]);
    assert_eq!(filter_by_difficulty(&corpus, Difficulty::Easy), strings(&["cat", "dog"]));
}

#[test]
fn medium_keeps_words_of_at_most_eight_characters() {
    let corpus = strings(&["cat", "banana", "dog", "elephant", "crocodile", "12345678"]);
    assert_eq!(
        filter_by_difficulty(&corpus, Difficulty::Medium),
        strings(&["cat", "banana", "dog", "elephant", "12345678"])
    );
}

#[test]
fn hard_keeps_every_word() {
    let corpus = strings(&["cat", "banana", "hippopotamus", ""]);
    assert_eq!(filter_by_difficulty(&corpus, Difficulty::Hard), corpus);
}

#[test]
fn the_limits_are_inclusive_and_count_characters() {
    assert!(difficulty_admits(Difficulty::Easy, "12345"));
    assert!(!difficulty_admits(Difficulty::Easy, "123456"));
    assert!(difficulty_admits(Difficulty::Medium, "12345678"));
    assert!(!difficulty_admits(Difficulty::Medium, "123456789"));
    assert!(difficulty_admits(Difficulty::Hard, "123456789012345678901234567890"));
    assert!(difficulty_admits(Difficulty::Easy, "éèêëà"));
    assert!(!difficulty_admits(Difficulty::Easy, "éèêëàç"));
}

#[test]
fn an_empty_filter_falls_back_to_the_whole_corpus() {
    let corpus = strings(&["banana", "elephant"]);
    assert_eq!(pool_for(&corpus, Difficulty::Easy), corpus);
    assert_eq!(pool_for(&corpus, Difficulty::Medium), corpus);
    let mixed = strings(&["banana", "cat"]);
    assert_eq!(pool_for(&mixed, Difficulty::Easy), strings(&["cat"]));
    assert_eq!(pool_for(&Vec::new(), Difficulty::Easy), Vec::<String>::new());
}

#[test]
fn the_count_depends_on_the_kind_of_session() {
    assert_eq!(count_for(&config(GameType::Time, None, Difficulty::Easy)), 300);
    assert_eq!(count_for(&config(GameType::Time, Some(7), Difficulty::Easy)), 300);
    assert_eq!(count_for(&config(GameType::Words, Some(10), Difficulty::Easy)), 10);
    assert_eq!(count_for(&config(GameType::Words, None, Difficulty::Easy)), 30);
    assert_eq!(count_for(&config(GameType::Words, Some(0), Difficulty::Easy)), 0);
}

#[test]
fn a_quotation_is_split_at_white_space() {
    let words = quote_words(&quote("  To be,\tor not\n to   be. "));
    assert_eq!(words, strings(&["To", "be,", "or", "not", "to", "be."]));
    assert_eq!(quote_words(&quote("")), Vec::<String>::new());
    assert_eq!(quote_words(&quote(" \n\t ")), Vec::<String>::new());
}

#[test]
fn quote_mode_returns_the_tokens_of_a_quotation_of_the_corpus() {
    let quotes = vec![quote("one two three"), quote("four  five"), quote("six")];
    let splits: Vec<Vec<String>> = quotes
        .iter()
        .map(|q| q.text.split_whitespace().map(String::from).collect())
        .collect();
    let cfg = config(GameType::Quote, None, Difficulty::Easy);
    for _ in 0..50 {
        let words = get_words_for_game(&cfg, &Vec::new(), &quotes).unwrap();
        assert!(!words.is_empty());
        assert!(splits.contains(&words));
    }
}

#[test]
fn quote_mode_reaches_every_quotation() {
    let quotes = vec![quote("a"), quote("b"), quote("c")];
    let cfg = config(GameType::Quote, None, Difficulty::Hard);
    let mut seen = [false; 3];
    for _ in 0..400 {
        let words = get_words_for_game(&cfg, &Vec::new(), &quotes).unwrap();
        let at = quotes.iter().position(|q| q.text == words[0]).unwrap();
        seen[at] = true;
    }
    assert_eq!(seen, [true; 3]);
}

#[test]
fn quote_mode_fails_on_an_empty_corpus() {
    let cfg = config(GameType::Quote, None, Difficulty::Easy);
    let words = strings(&["cat"]);
    assert_eq!(get_words_for_game(&cfg, &words, &Vec::new()), Err(SelectionError::NoQuotes));
}

#[test]
fn quote_mode_gives_no_words_for_a_blank_quotation() {
    let cfg = config(GameType::Quote, None, Difficulty::Easy);
    let quotes = vec![quote("   ")];
    assert_eq!(get_words_for_game(&cfg, &Vec::new(), &quotes), Ok(Vec::new()));
}

#[test]
fn ten_words_from_a_filter_of_four_are_four_words() {
    let corpus = strings(&["cat", "banana", "dog", "elephant", "bird", "ant", "crocodile"]);
    let cfg = config(GameType::Words, Some(10), Difficulty::Easy);
    let easy = strings(&["cat", "dog", "bird", "ant"]);
    for _ in 0..20 {
        let mut words = get_words_for_game(&cfg, &corpus, &Vec::new()).unwrap();
        assert_eq!(words.len(), 4);
        words.sort();
        let mut expected = easy.clone();
        expected.sort();
        assert_eq!(words, expected);
    }
}

#[test]
fn words_are_sampled_without_replacement() {
    let corpus = strings(&["a", "b", "c", "d", "e", "f", "g", "h"]);
    let cfg = config(GameType::Words, Some(3), Difficulty::Hard);
    for _ in 0..50 {
        let words = get_words_for_game(&cfg, &corpus, &Vec::new()).unwrap();
        assert_eq!(words.len(), 3);
        assert!(is_sample_of(&words, &corpus));
    }
}

#[test]
fn a_word_that_the_corpus_holds_twice_may_come_twice() {
    let corpus = strings(&["a", "a"]);
    let cfg = config(GameType::Words, Some(2), Difficulty::Hard);
    let words = get_words_for_game(&cfg, &corpus, &Vec::new()).unwrap();
    assert_eq!(words, strings(&["a", "a"]));
}

#[test]
fn the_sample_comes_in_changing_order() {
    let corpus = strings(&["a", "b", "c", "d", "e", "f", "g", "h"]);
    let cfg = config(GameType::Words, Some(8), Difficulty::Hard);
    let mut differs = false;
    for _ in 0..50 {
        let words = get_words_for_game(&cfg, &corpus, &Vec::new()).unwrap();
        assert!(is_sample_of(&words, &corpus));
        assert_eq!(words.len(), 8);
        if words != corpus {
            differs = true;
        }
    }
    assert!(differs);
}

#[test]
fn a_timed_session_gets_up_to_three_hundred_words() {
    let corpus: Vec<String> = (0..1000).map(|i| format!("w{}", i)).collect();
    let cfg = config(GameType::Time, None, Difficulty::Easy);
    let words = get_words_for_game(&cfg, &corpus, &Vec::new()).unwrap();
    assert_eq!(words.len(), 300);
    assert!(is_sample_of(&words, &corpus));
    let small = strings(&["cat", "dog"]);
    assert_eq!(get_words_for_game(&cfg, &small, &Vec::new()).unwrap().len(), 2);
}

#[test]
fn a_word_count_that_is_not_set_means_thirty() {
    let corpus: Vec<String> = (0..100).map(|i| format!("w{}", i)).collect();
    let cfg = config(GameType::Words, None, Difficulty::Hard);
    assert_eq!(get_words_for_game(&cfg, &corpus, &Vec::new()).unwrap().len(), 30);
}

#[test]
fn the_fallback_pool_is_sampled_when_the_filter_is_empty() {
    let corpus = strings(&["banana", "elephant", "giraffe"]);
    let cfg = config(GameType::Words, Some(2), Difficulty::Easy);
    let words = get_words_for_game(&cfg, &corpus, &Vec::new()).unwrap();
    assert_eq!(words.len(), 2);
    assert!(is_sample_of(&words, &corpus));
}

#[test]
fn word_modes_fail_on_an_empty_corpus() {
    let quotes = vec![quote("a b")];
    for game_type in [GameType::Time, GameType::Words] {
        let cfg = config(game_type, Some(10), Difficulty::Hard);
        assert_eq!(get_words_for_game(&cfg, &Vec::new(), &quotes), Err(SelectionError::NoWords));
    }
}

#[test]
fn asking_for_no_word_fails() {
    let corpus = strings(&["cat", "banana", "dog"]);
    let cfg = config(GameType::Words, Some(0), Difficulty::Easy);
    assert_eq!(
        get_words_for_game(&cfg, &corpus, &Vec::new()),
        Err(SelectionError::NothingSelectable { count: 0, available: 2 })
    );
}

#[test]
fn all_words_hands_its_list_back() {
    let all = AllWords::new(strings(&["cat", "dog"]));
    assert_eq!(all.into_words(), strings(&["cat", "dog"]));
}

#[test]
fn the_selection_falls_back_where_the_difficulty_admits_no_word() {
    let long = strings(&["banana", "elephant"]);
    let mixed = strings(&["banana", "cat"]);
    let very_long = strings(&["hippopotamus"]);
    for game_type in [GameType::Time, GameType::Words] {
        assert!(falls_back(&config(game_type, Some(10), Difficulty::Easy), &long));
        assert!(!falls_back(&config(game_type, Some(10), Difficulty::Medium), &long));
        assert!(!falls_back(&config(game_type, Some(10), Difficulty::Hard), &long));
        assert!(!falls_back(&config(game_type, Some(10), Difficulty::Easy), &mixed));
        assert!(falls_back(&config(game_type, Some(10), Difficulty::Medium), &very_long));
        assert!(!falls_back(&config(game_type, Some(10), Difficulty::Hard), &very_long));
        assert!(!falls_back(&config(game_type, Some(10), Difficulty::Easy), &[]));
    }
    assert!(!falls_back(&config(GameType::Quote, None, Difficulty::Easy), &long));
}

#[test]
fn without_a_fallback_every_word_selected_is_admitted() {
    let corpus = strings(&["cat", "banana", "dog", "elephant", "ox", "crocodile"]);
    let cfg = config(GameType::Words, Some(3), Difficulty::Easy);
    assert!(!falls_back(&cfg, &corpus));
    for _ in 0..30 {
        for word in get_words_for_game(&cfg, &corpus, &Vec::new()).unwrap() {
            assert!(difficulty_admits(Difficulty::Easy, &word));
        }
    }
}
