//! What a player chooses before a session starts.

use vstd::prelude::*;
use crate::data_loader::texts;
use crate::text::{decimal, push_decimal};

verus! {

/// The kinds of session.
#[derive(Debug, Clone, Copy, PartialEq, Eq, Structural)]
pub enum GameType {
    /// Type for a fixed duration.
    Time,
    /// Type a fixed number of words.
    Words,
    /// Type one quotation.
    Quote,
}

/// How long the words of a session may be.
#[derive(Debug, Clone, Copy, PartialEq, Eq, Structural)]
pub enum Difficulty {
    /// Words of at most five characters.
    Easy,
    /// Words of at most eight characters.
    Medium,
    /// Every word.
    Hard,
}

/// The configuration of one session.
#[derive(Debug, Clone, Copy)]
pub struct GameConfig {
    /// The kind of session.
    pub game_type: GameType,
    /// The duration in seconds of a `Time` session, absent otherwise.
    pub time_seconds: Option<u32>,
    /// The number of words of a `Words` session, absent otherwise.
    pub word_count: Option<u32>,
    /// The difficulty of the words.
    pub difficulty: Difficulty,
}

impl GameConfig {
    /// A configuration is coherent when it carries the one parameter that its
    /// kind of session needs, and no other.
    pub open spec fn wf(self) -> bool {
        &&& self.time_seconds is Some <==> self.game_type == GameType::Time
        &&& self.word_count is Some <==> self.game_type == GameType::Words
    }

    /// The configuration that the menus start from: thirty seconds of
    /// medium words.
    pub fn new() -> (config: GameConfig)
        ensures
            config.game_type == GameType::Time,
            config.time_seconds == Some(30u32),
            config.word_count == None::<u32>,
            config.difficulty == Difficulty::Medium,
            config.wf(),
    {
        GameConfig {
            game_type: GameType::Time,
            time_seconds: Some(30),
            word_count: None,
            difficulty: Difficulty::Medium,
        }
    }
}

/// The questions of the configuration menu.
#[derive(Debug, Clone, Copy, PartialEq, Eq, Structural)]
pub enum Prompt {
    /// Which kind of session.
    GameType,
    /// How long a timed session lasts.
    TimeLimit,
    /// How many words a session of words has.
    WordCount,
    /// Which difficulty.
    Difficulty,
}

/// What follows an answer.
#[derive(Debug, Clone, Copy, PartialEq, Eq, Structural)]
pub enum MenuStep {
    /// Ask this question next.
    Ask(Prompt),
    /// The configuration is complete.
    Done,
}

/// The durations on offer, in seconds.
pub open spec fn time_limits() -> Seq<u32> {
    seq![15u32, 30u32, 60u32, 120u32]
}

/// The numbers of words on offer.
pub open spec fn word_counts() -> Seq<u32> {
    seq![10u32, 20u32, 30u32, 40u32, 50u32]
}

impl Prompt {
    /// The number of answers on offer.
    pub open spec fn choices(self) -> int {
        match self {
            Prompt::GameType => 3,
            Prompt::TimeLimit => 4,
            Prompt::WordCount => 5,
            Prompt::Difficulty => 3,
        }
    }

    /// The answer that is selected when the question comes up.
    pub open spec fn default_choice(self) -> int {
        match self {
            Prompt::GameType => 0,
            _ => 1,
        }
    }

    /// The question as it is put.
    pub open spec fn title(self) -> Seq<char> {
        match self {
            Prompt::GameType => "Pick a game type:"@,
            Prompt::TimeLimit => "Pick a time limit:"@,
            Prompt::WordCount => "Pick a number of words:"@,
            Prompt::Difficulty => "Pick a difficulty:"@,
        }
    }

    /// The answers as they are listed: the names of the kinds and of the
    /// difficulties, the durations in seconds followed by `s`, the numbers
    /// of words.
    pub open spec fn labels(self) -> Seq<Seq<char>> {
        match self {
            Prompt::GameType => seq!["Time"@, "Words"@, "Quote"@],
            Prompt::TimeLimit => Seq::new(4, |i: int| decimal(time_limits()[i] as nat) + "s"@),
            Prompt::WordCount => Seq::new(5, |i: int| decimal(word_counts()[i] as nat)),
            Prompt::Difficulty => seq!["Easy"@, "Medium"@, "Hard"@],
        }
    }
}

impl GameConfig {
    /// The configuration after answer `index` to `prompt`, for an answer
    /// that is on offer: a kind of session drops the parameters that it
    /// has no use for, a duration or a number of words is set and the
    /// other parameter dropped, a difficulty is set.
    pub open spec fn answered(self, prompt: Prompt, index: int) -> GameConfig {
        match prompt {
            Prompt::GameType => if index == 0 {
                GameConfig { game_type: GameType::Time, ..self }
            } else if index == 1 {
                GameConfig { game_type: GameType::Words, ..self }
            } else {
                GameConfig { game_type: GameType::Quote, time_seconds: None, word_count: None, ..self }
            },
            Prompt::TimeLimit => GameConfig {
                time_seconds: Some(time_limits()[index]),
                word_count: None,
                ..self
            },
            Prompt::WordCount => GameConfig {
                word_count: Some(word_counts()[index]),
                time_seconds: None,
                ..self
            },
            Prompt::Difficulty => GameConfig {
                difficulty: if index == 0 {
                    Difficulty::Easy
                } else if index == 1 {
                    Difficulty::Medium
                } else {
                    Difficulty::Hard
                },
                ..self
            },
        }
    }
}

/// What follows answer `index` to `prompt`: the parameter of the kind
/// chosen, then the difficulty, then nothing.
pub open spec fn step_after(prompt: Prompt, index: int) -> MenuStep {
    match prompt {
        Prompt::GameType => if index == 0 {
            MenuStep::Ask(Prompt::TimeLimit)
        } else if index == 1 {
            MenuStep::Ask(Prompt::WordCount)
        } else {
            MenuStep::Ask(Prompt::Difficulty)
        },
        Prompt::TimeLimit => MenuStep::Ask(Prompt::Difficulty),
        Prompt::WordCount => MenuStep::Ask(Prompt::Difficulty),
        Prompt::Difficulty => MenuStep::Done,
    }
}

/// The question that the menu opens with.
pub fn first_prompt() -> (prompt: Prompt)
    ensures
        prompt == Prompt::GameType,
{
    Prompt::GameType
}

/// The question as it is put.
pub fn prompt_title(prompt: Prompt) -> (title: String)
    ensures
        title@ == prompt.title(),
{
    match prompt {
        Prompt::GameType => "Pick a game type:".to_owned(),
        Prompt::TimeLimit => "Pick a time limit:".to_owned(),
        Prompt::WordCount => "Pick a number of words:".to_owned(),
        Prompt::Difficulty => "Pick a difficulty:".to_owned(),
    }
}

/// The answer that is selected when the question comes up.
pub fn prompt_default(prompt: Prompt) -> (index: usize)
    ensures
        index == prompt.default_choice(),
        0 <= index < prompt.choices(),
{
    match prompt {
        Prompt::GameType => 0,
        _ => 1,
    }
}

/// The duration in seconds that answer `index` stands for.
pub fn time_limit_at(index: usize) -> (seconds: Option<u32>)
    ensures
        seconds == if index < 4 {
            Some(time_limits()[index as int])
        } else {
            None
        },
{
    match index {
        0 => Some(15),
        1 => Some(30),
        2 => Some(60),
        3 => Some(120),
        _ => None,
    }
}

/// The number of words that answer `index` stands for.
pub fn word_count_at(index: usize) -> (count: Option<u32>)
    ensures
        count == if index < 5 {
            Some(word_counts()[index as int])
        } else {
            None
        },
{
    match index {
        0 => Some(10),
        1 => Some(20),
        2 => Some(30),
        3 => Some(40),
        4 => Some(50),
        _ => None,
    }
}

/// The answers as they are listed.
pub fn prompt_items(prompt: Prompt) -> (items: Vec<String>)
    ensures
        texts(items@) == prompt.labels(),
        items.len() == prompt.choices(),
{
    let mut items: Vec<String> = Vec::new();
    match prompt {
        Prompt::GameType => {
            items.push("Time".to_owned());
            items.push("Words".to_owned());
            items.push("Quote".to_owned());
        },
        Prompt::TimeLimit => {
            for i in 0..4usize
                invariant
                    items.len() == i,
                    forall|k: int|
                        0 <= k < i ==> (#[trigger] items[k])@ == decimal(time_limits()[k] as nat)
                            + "s"@,
            {
                let mut label = String::new();
                match time_limit_at(i) {
                    Some(seconds) => push_decimal(&mut label, seconds as u128),
                    None => {},
                }
                label.append("s");
                items.push(label);
            }
        },
        Prompt::WordCount => {
            for i in 0..5usize
                invariant
                    items.len() == i,
                    forall|k: int|
                        0 <= k < i ==> (#[trigger] items[k])@ == decimal(word_counts()[k] as nat),
            {
                let mut label = String::new();
                match word_count_at(i) {
                    Some(count) => push_decimal(&mut label, count as u128),
                    None => {},
                }
                items.push(label);
            }
        },
        Prompt::Difficulty => {
            items.push("Easy".to_owned());
            items.push("Medium".to_owned());
            items.push("Hard".to_owned());
        },
    }
    assert(texts(items@) =~= prompt.labels());
    items
}

/// Takes answer `index` to `prompt` into the configuration and says what
/// follows. An answer that is not on offer changes nothing and is answered
/// with `None`.
pub fn apply_choice(config: &mut GameConfig, prompt: Prompt, index: usize) -> (next: Option<MenuStep>)
    ensures
        0 <= index < prompt.choices() ==> next == Some(step_after(prompt, index as int))
            && *final(config) == old(config).answered(prompt, index as int),
        index >= prompt.choices() ==> next is None && *final(config) == *old(config),
{
    match prompt {
        Prompt::GameType => {
            if index == 0 {
                config.game_type = GameType::Time;
                Some(MenuStep::Ask(Prompt::TimeLimit))
            } else if index == 1 {
                config.game_type = GameType::Words;
                Some(MenuStep::Ask(Prompt::WordCount))
            } else if index == 2 {
                config.game_type = GameType::Quote;
                config.time_seconds = None;
                config.word_count = None;
                Some(MenuStep::Ask(Prompt::Difficulty))
            } else {
                None
            }
        },
        Prompt::TimeLimit => match time_limit_at(index) {
            Some(seconds) => {
                config.time_seconds = Some(seconds);
                config.word_count = None;
                Some(MenuStep::Ask(Prompt::Difficulty))
            },
            None => None,
        },
        Prompt::WordCount => match word_count_at(index) {
            Some(count) => {
                config.word_count = Some(count);
                config.time_seconds = None;
                Some(MenuStep::Ask(Prompt::Difficulty))
            },
            None => None,
        },
        Prompt::Difficulty => {
            if index == 0 {
                config.difficulty = Difficulty::Easy;
                Some(MenuStep::Done)
            } else if index == 1 {
                config.difficulty = Difficulty::Medium;
                Some(MenuStep::Done)
            } else if index == 2 {
                config.difficulty = Difficulty::Hard;
                Some(MenuStep::Done)
            } else {
                None
            }
        },
    }
}

/// The configuration that the menu ends with, whatever it started from:
/// the kind is asked for, then the parameter of that kind, if it has one,
/// then the difficulty.
pub open spec fn menu_result(start: GameConfig, kind: int, parameter: int, difficulty: int) -> GameConfig {
    let first = start.answered(Prompt::GameType, kind);
    let second = match step_after(Prompt::GameType, kind) {
        MenuStep::Ask(Prompt::Difficulty) => first,
        MenuStep::Ask(prompt) => first.answered(prompt, parameter),
        MenuStep::Done => first,
    };
    second.answered(Prompt::Difficulty, difficulty)
}

/// Whatever is answered, the menu ends with a coherent configuration: a
/// duration for a timed session and for no other, a number of words for a
/// session of words and for no other.
pub proof fn law_menu_yields_coherent_configuration(
    start: GameConfig,
    kind: int,
    parameter: int,
    difficulty: int,
)
    ensures
        menu_result(start, kind, parameter, difficulty).wf(),
{
}

} // verus!
