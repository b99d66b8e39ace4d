//! The selection of the words of a session.

use vstd::prelude::*;
use rand::seq::SliceRandom;
use crate::config::{Difficulty, GameConfig, GameType};
use crate::data_loader::{texts, Quote};
use crate::text::{is_whitespace, law_tokens_exist, split_whitespace, tokens};

verus! {

/// The number of words handed to a timed session: more than can be typed
/// before the time is up.
pub const TIMED_POOL_SIZE: usize = 300;

/// The number of words of a word-count session that names none.
pub const DEFAULT_WORD_COUNT: usize = 30;

/// The longest word of an easy session, in characters.
pub const EASY_MAX_CHARS: usize = 5;

/// The longest word of a medium session, in characters.
pub const MEDIUM_MAX_CHARS: usize = 8;

/// Why no words could be selected.
#[derive(Debug, Clone, Copy, PartialEq, Eq, Structural)]
pub enum SelectionError {
    /// A quotation was asked for and the quotation corpus is empty.
    NoQuotes,
    /// Words were asked for and the word corpus is empty.
    NoWords,
    /// `count` words were asked for from `available` words, and that
    /// leaves none to type.
    NothingSelectable { count: usize, available: usize },
    /// The selection went through and holds no word: the quotation chosen
    /// is blank.
    EmptySelection,
}

/// Whether a word is short enough for the difficulty.
pub open spec fn admits(difficulty: Difficulty, word: Seq<char>) -> bool {
    match difficulty {
        Difficulty::Easy => word.len() <= EASY_MAX_CHARS,
        Difficulty::Medium => word.len() <= MEDIUM_MAX_CHARS,
        Difficulty::Hard => true,
    }
}

/// The words of the corpus that the difficulty admits, in their order.
pub open spec fn filtered(words: Seq<Seq<char>>, difficulty: Difficulty) -> Seq<Seq<char>> {
    words.filter(|word: Seq<char>| admits(difficulty, word))
}

/// The words to sample from: those that the difficulty admits, or the
/// whole corpus where it admits none.
pub open spec fn word_pool(words: Seq<Seq<char>>, difficulty: Difficulty) -> Seq<Seq<char>> {
    if filtered(words, difficulty).len() == 0 {
        words
    } else {
        filtered(words, difficulty)
    }
}

/// The number of words that a session of words asks for.
pub open spec fn requested_count(config: GameConfig) -> int {
    match config.game_type {
        GameType::Time => TIMED_POOL_SIZE as int,
        _ => match config.word_count {
            Some(count) => count as int,
            None => DEFAULT_WORD_COUNT as int,
        },
    }
}

/// `chosen` holds the items of `pool` at `positions`, in that order.
pub open spec fn picked_at(
    chosen: Seq<Seq<char>>,
    pool: Seq<Seq<char>>,
    positions: Seq<int>,
) -> bool {
    &&& positions.len() == chosen.len()
    &&& forall|k: int| 0 <= k < positions.len() ==> 0 <= #[trigger] positions[k] < pool.len()
    &&& forall|j: int, k: int|
        0 <= j < k < positions.len() ==> #[trigger] positions[j] != #[trigger] positions[k]
    &&& forall|k: int| 0 <= k < chosen.len() ==> #[trigger] chosen[k] == pool[positions[k]]
}

/// `chosen` is a sample of `amount` items of `pool` without replacement:
/// as many items as asked for, or the whole pool if that is fewer, taken
/// from pairwise different positions, in any order.
pub open spec fn is_sample(chosen: Seq<Seq<char>>, pool: Seq<Seq<char>>, amount: int) -> bool {
    &&& chosen.len() == if amount <= pool.len() { amount } else { pool.len() as int }
    &&& exists|positions: Seq<int>| picked_at(chosen, pool, positions)
}

/// What a selection may return for a configuration and the two corpora.
pub open spec fn selects(
    config: GameConfig,
    all_words: Seq<Seq<char>>,
    all_quotes: Seq<Seq<char>>,
    result: Result<Seq<Seq<char>>, SelectionError>,
) -> bool {
    match config.game_type {
        GameType::Quote => match result {
            Ok(words) => exists|i: int|
                0 <= i < all_quotes.len() && words == tokens(#[trigger] all_quotes[i]),
            Err(error) => all_quotes.len() == 0 && error == SelectionError::NoQuotes,
        },
        _ => {
            let pool = word_pool(all_words, config.difficulty);
            let count = requested_count(config);
            match result {
                Ok(words) => all_words.len() > 0 && count > 0 && is_sample(words, pool, count),
                Err(error) => if all_words.len() == 0 {
                    error == SelectionError::NoWords
                } else {
                    count == 0 && error == (SelectionError::NothingSelectable {
                        count: 0,
                        available: pool.len() as usize,
                    })
                },
            }
        },
    }
}

/// The texts of the quotations of a list, in order.
pub open spec fn quote_texts(quotes: Seq<Quote>) -> Seq<Seq<char>> {
    Seq::new(quotes.len(), |i: int| quotes[i].text@)
}

/// `rand::seq::SliceRandom::choose` on the list, with the generator that
/// `rand::thread_rng` gives: `None` for an empty list, otherwise one of the
/// items of the list. Which one is left open.
#[verifier::external_body]
fn choose_quote(quotes: &[Quote]) -> (chosen: Option<&Quote>)
    ensures
        chosen is Some <==> quotes.len() > 0,
        chosen is Some ==> exists|i: int| 0 <= i < quotes.len() && #[trigger] quotes[i] == *chosen->0,
{
    quotes.choose(&mut rand::thread_rng())
}

/// `rand::seq::SliceRandom::choose_multiple` on the list, with the
/// generator that `rand::thread_rng` gives, each chosen word copied:
/// `amount` words, or all of them if there are fewer, from pairwise
/// different positions of the list. Which positions, and in which order,
/// is left open.
#[verifier::external_body]
fn sample_words(pool: &[String], amount: usize) -> (chosen: Vec<String>)
    ensures
        is_sample(texts(chosen@), texts(pool@), amount as int),
{
    pool.choose_multiple(&mut rand::thread_rng(), amount).cloned().collect()
}

/// Whether a word is short enough for the difficulty.
pub fn difficulty_admits(difficulty: Difficulty, word: &str) -> (admitted: bool)
    ensures
        admitted == admits(difficulty, word@),
{
    match difficulty {
        Difficulty::Easy => word.unicode_len() <= EASY_MAX_CHARS,
        Difficulty::Medium => word.unicode_len() <= MEDIUM_MAX_CHARS,
        Difficulty::Hard => true,
    }
}

/// The words of the corpus that the difficulty admits, in their order.
pub fn filter_by_difficulty(all_words: &[String], difficulty: Difficulty) -> (kept: Vec<String>)
    ensures
        texts(kept@) == filtered(texts(all_words@), difficulty),
{
    let mut kept: Vec<String> = Vec::new();
    let ghost admitted = |word: Seq<char>| admits(difficulty, word);
    let ghost source = texts(all_words@);
    proof {
        assert(source.take(0) =~= Seq::<Seq<char>>::empty());
        assert(texts(kept@) =~= Seq::<Seq<char>>::empty());
        assert(Seq::<Seq<char>>::empty().filter(admitted) =~= Seq::<Seq<char>>::empty());
    }
    for i in 0..all_words.len()
        invariant
            source == texts(all_words@),
            admitted == |word: Seq<char>| admits(difficulty, word),
            texts(kept@) == source.take(i as int).filter(admitted),
    {
        let word = &all_words[i];
        proof {
            let before = source.take(i as int);
            assert(source.take(i as int + 1) =~= before.push(word@));
            lemma_filter_push(before, word@, admitted);
        }
        if difficulty_admits(difficulty, word.as_str()) {
            let ghost so_far = texts(kept@);
            kept.push(word.clone());
            assert(texts(kept@) =~= so_far.push(word@));
        }
    }
    assert(source.take(all_words.len() as int) =~= source);
    kept
}

/// Filtering a sequence with one more item at its end keeps that item if
/// and only if the predicate holds of it.
proof fn lemma_filter_push(items: Seq<Seq<char>>, last: Seq<char>, keep: spec_fn(Seq<char>) -> bool)
    ensures
        items.push(last).filter(keep) == if keep(last) {
            items.filter(keep).push(last)
        } else {
            items.filter(keep)
        },
{
    reveal(Seq::filter);
    assert(items.push(last).drop_last() =~= items);
}

/// The words to sample from: those that the difficulty admits, or a copy
/// of the whole corpus where it admits none.
pub fn pool_for(all_words: &[String], difficulty: Difficulty) -> (pool: Vec<String>)
    ensures
        texts(pool@) == word_pool(texts(all_words@), difficulty),
{
    let kept = filter_by_difficulty(all_words, difficulty);
    if kept.len() > 0 {
        return kept;
    }
    let mut whole: Vec<String> = Vec::new();
    for i in 0..all_words.len()
        invariant
            whole.len() == i,
            forall|k: int| 0 <= k < i ==> (#[trigger] whole[k])@ == all_words[k]@,
    {
        whole.push(all_words[i].clone());
    }
    assert(texts(whole@) =~= texts(all_words@));
    whole
}

/// Whether the selection leaves the difficulty aside: a session of words,
/// on a corpus that holds words, of which the difficulty admits none.
pub open spec fn leaves_difficulty_aside(config: GameConfig, all_words: Seq<Seq<char>>) -> bool {
    &&& config.game_type != GameType::Quote
    &&& all_words.len() > 0
    &&& filtered(all_words, config.difficulty).len() == 0
}

/// Whether the selection for this configuration falls back from the words
/// that the difficulty admits to the whole corpus.
pub fn falls_back(config: &GameConfig, all_words: &[String]) -> (fallback: bool)
    ensures
        fallback == (config.game_type != GameType::Quote && all_words@.len() > 0 && filtered(
            texts(all_words@),
            config.difficulty,
        ).len() == 0),
        fallback == leaves_difficulty_aside(*config, texts(all_words@)),
{
    match config.game_type {
        GameType::Quote => false,
        _ => all_words.len() > 0 && filter_by_difficulty(all_words, config.difficulty).len() == 0,
    }
}

/// The number of words that a session of words asks for: a fixed large
/// number for a timed session, the configured number otherwise.
pub fn count_for(config: &GameConfig) -> (count: usize)
    ensures
        count == requested_count(*config),
{
    match config.game_type {
        GameType::Time => TIMED_POOL_SIZE,
        _ => match config.word_count {
            Some(count) => count as usize,
            None => DEFAULT_WORD_COUNT,
        },
    }
}

/// The words of a quotation.
pub fn quote_words(quote: &Quote) -> (words: Vec<String>)
    ensures
        texts(words@) == tokens(quote.text@),
{
    split_whitespace(quote.text.as_str())
}

/// Selects the words of a session.
///
/// A session on a quotation gets the tokens of one quotation of the corpus.
/// A session on words gets a sample without replacement from the words that
/// the difficulty admits, or from the whole corpus where it admits none.
/// The selection fails on an empty corpus, and where no word is asked for.
pub fn get_words_for_game(config: &GameConfig, all_words: &[String], all_quotes: &[Quote]) -> (result:
    Result<Vec<String>, SelectionError>)
    ensures
        selects(
            *config,
            texts(all_words@),
            quote_texts(all_quotes@),
            match result {
                Ok(words) => Ok(texts(words@)),
                Err(error) => Err(error),
            },
        ),
{
    match config.game_type {
        GameType::Quote => {
            match choose_quote(all_quotes) {
                None => Err(SelectionError::NoQuotes),
                Some(quote) => {
                    let words = quote_words(quote);
                    proof {
                        let i = choose|i: int|
                            0 <= i < all_quotes.len() && #[trigger] all_quotes[i] == *quote;
                        assert(quote_texts(all_quotes@)[i] == quote.text@);
                    }
                    Ok(words)
                },
            }
        },
        _ => {
            if all_words.len() == 0 {
                return Err(SelectionError::NoWords);
            }
            let count = count_for(config);
            let pool = pool_for(all_words, config.difficulty);
            if count == 0 {
                return Err(SelectionError::NothingSelectable { count, available: pool.len() });
            }
            Ok(sample_words(pool.as_slice(), count))
        },
    }
}

/// The text holds a character that is not white space.
pub open spec fn has_word(text: Seq<char>) -> bool {
    exists|k: int| 0 <= k < text.len() && !is_whitespace(#[trigger] text[k])
}

/// From a corpus of quotations that each hold a word, a session on a
/// quotation gets words: at least one, and exactly the tokens of one of
/// the quotations.
pub proof fn law_quote_selection_gives_tokens(
    config: GameConfig,
    all_words: Seq<Seq<char>>,
    all_quotes: Seq<Seq<char>>,
    result: Result<Seq<Seq<char>>, SelectionError>,
)
    requires
        config.game_type == GameType::Quote,
        all_quotes.len() > 0,
        forall|i: int| 0 <= i < all_quotes.len() ==> has_word(#[trigger] all_quotes[i]),
        selects(config, all_words, all_quotes, result),
    ensures
        result is Ok,
        result->Ok_0.len() > 0,
        exists|i: int|
            0 <= i < all_quotes.len() && result->Ok_0 == tokens(#[trigger] all_quotes[i]),
{
    let i = choose|i: int|
        0 <= i < all_quotes.len() && result->Ok_0 == tokens(#[trigger] all_quotes[i]);
    law_tokens_exist(all_quotes[i]);
}

/// Where the difficulty admits fewer words than are asked for, a session
/// of words gets as many words as the difficulty admits.
pub proof fn law_small_pool_is_taken_whole(
    config: GameConfig,
    all_words: Seq<Seq<char>>,
    all_quotes: Seq<Seq<char>>,
    result: Result<Seq<Seq<char>>, SelectionError>,
)
    requires
        config.game_type != GameType::Quote,
        0 < filtered(all_words, config.difficulty).len() <= requested_count(config),
        selects(config, all_words, all_quotes, result),
    ensures
        result is Ok,
        result->Ok_0.len() == filtered(all_words, config.difficulty).len(),
{
    all_words.lemma_filter_len(|word: Seq<char>| admits(config.difficulty, word));
}

/// A session of words gets as many words as it asks for, or the whole pool
/// if that is smaller, each of them a word of the pool, and no word of the
/// pool more often than the pool holds it.
pub proof fn law_word_selection_is_a_sample(
    config: GameConfig,
    all_words: Seq<Seq<char>>,
    all_quotes: Seq<Seq<char>>,
    words: Seq<Seq<char>>,
    k: int,
)
    requires
        config.game_type != GameType::Quote,
        selects(config, all_words, all_quotes, Ok(words)),
        0 <= k < words.len(),
    ensures
        words.len() <= requested_count(config),
        words.len() <= word_pool(all_words, config.difficulty).len(),
        word_pool(all_words, config.difficulty).contains(words[k]),
        all_words.contains(words[k]),
{
    let pool = word_pool(all_words, config.difficulty);
    let positions = choose|positions: Seq<int>| picked_at(words, pool, positions);
    assert(pool[positions[k]] == words[k]);
    if filtered(all_words, config.difficulty).len() > 0 {
        all_words.lemma_filter_contains_rev(
            |word: Seq<char>| admits(config.difficulty, word),
            words[k],
        );
    }
}

/// Where the selection leaves the difficulty aside, a session of words is
/// sampled from the whole corpus; where it does not, every word selected
/// is one that the difficulty admits.
pub proof fn law_fallback_takes_the_whole_corpus(
    config: GameConfig,
    all_words: Seq<Seq<char>>,
    all_quotes: Seq<Seq<char>>,
    words: Seq<Seq<char>>,
    k: int,
)
    requires
        config.game_type != GameType::Quote,
        selects(config, all_words, all_quotes, Ok(words)),
        0 <= k < words.len(),
    ensures
        leaves_difficulty_aside(config, all_words) ==> is_sample(
            words,
            all_words,
            requested_count(config),
        ),
        !leaves_difficulty_aside(config, all_words) ==> admits(config.difficulty, words[k]),
{
    if !leaves_difficulty_aside(config, all_words) {
        let keep = |word: Seq<char>| admits(config.difficulty, word);
        let pool = all_words.filter(keep);
        let positions = choose|positions: Seq<int>| picked_at(words, pool, positions);
        assert(pool[positions[k]] == words[k]);
        all_words.lemma_filter_pred(keep, positions[k]);
    }
}

} // verus!
