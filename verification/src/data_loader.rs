//! The shapes of the two corpora: a word list and a list of quotations.

use vstd::prelude::*;

verus! {

/// The characters of each string of a list, in order.
pub open spec fn texts(list: Seq<String>) -> Seq<Seq<char>> {
    Seq::new(list.len(), |i: int| list[i]@)
}

/// The word corpus as it is stored: one list under the key `words`.
#[derive(Debug)]
pub struct AllWords {
    words: Vec<String>,
}

impl View for AllWords {
    type V = Seq<Seq<char>>;

    closed spec fn view(&self) -> Seq<Seq<char>> {
        texts(self.words@)
    }
}

impl AllWords {
    /// Wraps a list of words.
    pub fn new(words: Vec<String>) -> (all: AllWords)
        ensures
            all@ == texts(words@),
    {
        AllWords { words }
    }

    /// Hands the list of words out.
    pub fn into_words(self) -> (words: Vec<String>)
        ensures
            texts(words@) == self@,
    {
        self.words
    }
}

/// A quotation and where it comes from.
#[derive(Debug, Clone)]
pub struct Quote {
    /// The text of the quotation.
    pub text: String,
    /// Its source or author.
    pub source: String,
}

/// A quotation as two sequences of characters.
pub struct QuoteView {
    pub text: Seq<char>,
    pub source: Seq<char>,
}

impl View for Quote {
    type V = QuoteView;

    open spec fn view(&self) -> QuoteView {
        QuoteView { text: self.text@, source: self.source@ }
    }
}

/// The view of each quotation of a list, in order.
pub open spec fn quote_views(list: Seq<Quote>) -> Seq<QuoteView> {
    Seq::new(list.len(), |i: int| list[i]@)
}

} // verus!
