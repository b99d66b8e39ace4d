//! Strings as sequences of characters.

use vstd::prelude::*;

verus! {

/// `String::push` appends the character to the end of the string.
pub assume_specification[ String::push ](s: &mut String, c: char)
    ensures
        final(s)@ == old(s)@.push(c),
;

/// `String::pop` removes the last character and returns it, or returns
/// `None` and leaves the string alone when it is empty.
pub assume_specification[ String::pop ](s: &mut String) -> (last: Option<char>)
    ensures
        old(s)@.len() == 0 ==> last is None && final(s)@ == old(s)@,
        old(s)@.len() > 0 ==> last == Some(old(s)@.last()) && final(s)@ == old(s)@.drop_last(),
;

/// `String::clear` removes all the characters of the string.
pub assume_specification[ String::clear ](s: &mut String)
    ensures
        final(s)@ == Seq::<char>::empty(),
;

/// Whether `c` has the Unicode property `White_Space`.
pub open spec fn is_whitespace(c: char) -> bool {
    let code = c as u32;
    ||| 0x09 <= code <= 0x0D
    ||| code == 0x20
    ||| code == 0x85
    ||| code == 0xA0
    ||| code == 0x1680
    ||| 0x2000 <= code <= 0x200A
    ||| code == 0x2028
    ||| code == 0x2029
    ||| code == 0x202F
    ||| code == 0x205F
    ||| code == 0x3000
}

/// Whether `c` is white space.
pub fn char_is_whitespace(c: char) -> (white: bool)
    ensures
        white == is_whitespace(c),
{
    let code = c as u32;
    (0x09 <= code && code <= 0x0D) || code == 0x20 || code == 0x85 || code == 0xA0 || code
        == 0x1680 || (0x2000 <= code && code <= 0x200A) || code == 0x2028 || code == 0x2029 || code
        == 0x202F || code == 0x205F || code == 0x3000
}

/// A text read from the left: the tokens that white space has closed, and
/// the run of other characters that is still open at the end.
pub struct Scan {
    pub closed: Seq<Seq<char>>,
    pub open: Seq<char>,
}

impl Scan {
    /// The scan after one more character: white space closes the open run,
    /// if there is one; any other character extends it.
    pub open spec fn step(self, c: char) -> Scan {
        if !is_whitespace(c) {
            Scan { open: self.open.push(c), ..self }
        } else if self.open.len() > 0 {
            Scan { closed: self.closed.push(self.open), open: Seq::empty() }
        } else {
            self
        }
    }

    /// The tokens read so far, the open run included.
    pub open spec fn tokens(self) -> Seq<Seq<char>> {
        if self.open.len() > 0 {
            self.closed.push(self.open)
        } else {
            self.closed
        }
    }
}

/// The scan of a whole text.
pub open spec fn scan(text: Seq<char>) -> Scan
    decreases text.len(),
{
    if text.len() == 0 {
        Scan { closed: Seq::empty(), open: Seq::empty() }
    } else {
        scan(text.drop_last()).step(text.last())
    }
}

/// The tokens of a text: its maximal runs of characters that are not white
/// space, in order.
pub open spec fn tokens(text: Seq<char>) -> Seq<Seq<char>> {
    scan(text).tokens()
}

/// Splits a text at white space into its tokens.
pub fn split_whitespace(text: &str) -> (words: Vec<String>)
    ensures
        crate::data_loader::texts(words@) == tokens(text@),
{
    let mut words: Vec<String> = Vec::new();
    let mut open = String::new();
    proof {
        assert(text@.take(0) =~= Seq::<char>::empty());
        assert(crate::data_loader::texts(words@) =~= Seq::<Seq<char>>::empty());
    }
    for c in it: text.chars()
        invariant
            it.seq() == text@,
            crate::data_loader::texts(words@) == scan(text@.take(it.index() as int)).closed,
            open@ == scan(text@.take(it.index() as int)).open,
    {
        proof {
            let before = text@.take(it.index() as int);
            let now = text@.take(it.index() as int + 1);
            assert(now.drop_last() =~= before);
            assert(now.last() == c);
        }
        if !char_is_whitespace(c) {
            open.push(c);
        } else if !open.as_str().is_empty() {
            let ghost closed = crate::data_loader::texts(words@);
            words.push(open);
            assert(crate::data_loader::texts(words@) =~= closed.push(open@));
            open = String::new();
        }
    }
    assert(text@.take(text@.len() as int) =~= text@);
    if !open.as_str().is_empty() {
        let ghost closed = crate::data_loader::texts(words@);
        words.push(open);
        assert(crate::data_loader::texts(words@) =~= closed.push(open@));
    }
    words
}

/// The parts of a text, one after the other.
pub open spec fn joined(parts: Seq<Seq<char>>) -> Seq<char>
    decreases parts.len(),
{
    if parts.len() == 0 {
        Seq::empty()
    } else {
        joined(parts.drop_last()) + parts.last()
    }
}

/// The characters of a text that are not white space, in order.
pub open spec fn without_whitespace(text: Seq<char>) -> Seq<char> {
    text.filter(|c: char| !is_whitespace(c))
}

/// The tokens of a text, one after the other, are the text without its
/// white space.
pub proof fn law_tokens_keep_every_other_character(text: Seq<char>)
    ensures
        joined(tokens(text)) == without_whitespace(text),
{
    lemma_scan_keeps_characters(text);
    let s = scan(text);
    if s.open.len() > 0 {
        assert(s.closed.push(s.open).drop_last() =~= s.closed);
    } else {
        assert(joined(s.closed) + s.open =~= joined(s.closed));
    }
}

/// The closed tokens of a scan and then its open run are the text without
/// its white space.
proof fn lemma_scan_keeps_characters(text: Seq<char>)
    ensures
        joined(scan(text).closed) + scan(text).open == without_whitespace(text),
    decreases text.len(),
{
    reveal(Seq::filter);
    if text.len() == 0 {
        assert(joined(scan(text).closed) + scan(text).open =~= without_whitespace(text));
    } else {
        let before = scan(text.drop_last());
        let c = text.last();
        lemma_scan_keeps_characters(text.drop_last());
        if !is_whitespace(c) {
            assert(joined(before.closed) + before.open.push(c) =~= (joined(before.closed)
                + before.open).push(c));
        } else if before.open.len() > 0 {
            assert(before.closed.push(before.open).drop_last() =~= before.closed);
            assert(joined(before.closed.push(before.open)) + Seq::<char>::empty() =~= joined(
                before.closed,
            ) + before.open);
        }
    }
}

/// A run of characters without white space.
pub open spec fn is_run(run: Seq<char>) -> bool {
    forall|j: int| 0 <= j < run.len() ==> !is_whitespace(#[trigger] run[j])
}

/// No token is empty and no token holds white space.
pub proof fn law_tokens_are_words(text: Seq<char>, i: int)
    requires
        0 <= i < tokens(text).len(),
    ensures
        tokens(text)[i].len() > 0,
        is_run(tokens(text)[i]),
{
    lemma_scan_holds_words(text);
}

/// A text has a token if and only if one of its characters is not white
/// space.
pub proof fn law_tokens_exist(text: Seq<char>)
    ensures
        tokens(text).len() > 0 <==> exists|k: int| 0 <= k < text.len() && !is_whitespace(#[trigger] text[k]),
    decreases text.len(),
{
    lemma_scan_holds_words(text);
    if text.len() > 0 {
        let front = text.drop_last();
        law_tokens_exist(front);
        lemma_scan_holds_words(front);
        if tokens(front).len() > 0 {
            let k = choose|k: int| 0 <= k < front.len() && !is_whitespace(#[trigger] front[k]);
            assert(text[k] == front[k]);
            assert(tokens(text).len() > 0);
        } else if !is_whitespace(text.last()) {
            assert(!is_whitespace(text[text.len() - 1]));
        } else {
            assert(tokens(text).len() == 0);
            assert forall|k: int| 0 <= k < text.len() implies is_whitespace(#[trigger] text[k]) by {
                if k < front.len() {
                    assert(text[k] == front[k]);
                }
            }
        }
    }
}

/// Every closed token of a scan, and its open run, is free of white space,
/// and every closed token has a character.
proof fn lemma_scan_holds_words(text: Seq<char>)
    ensures
        is_run(scan(text).open),
        forall|i: int|
            0 <= i < scan(text).closed.len() ==> (#[trigger] scan(text).closed[i]).len() > 0
                && is_run(scan(text).closed[i]),
    decreases text.len(),
{
    if text.len() > 0 {
        let before = scan(text.drop_last());
        let after = scan(text);
        let c = text.last();
        lemma_scan_holds_words(text.drop_last());
        assert(after == before.step(c));
        if !is_whitespace(c) {
            assert forall|j: int| 0 <= j < after.open.len() implies !is_whitespace(
                #[trigger] after.open[j],
            ) by {
                if j < before.open.len() {
                    assert(after.open[j] == before.open[j]);
                }
            }
        } else if before.open.len() > 0 {
            assert forall|i: int| 0 <= i < after.closed.len() implies (
            #[trigger] after.closed[i]).len() > 0 && is_run(after.closed[i]) by {
                if i < before.closed.len() {
                    assert(after.closed[i] == before.closed[i]);
                }
            }
        }
    }
}

/// The character of the decimal digit `d`.
pub open spec fn digit(d: int) -> char {
    if d == 0 {
        '0'
    } else if d == 1 {
        '1'
    } else if d == 2 {
        '2'
    } else if d == 3 {
        '3'
    } else if d == 4 {
        '4'
    } else if d == 5 {
        '5'
    } else if d == 6 {
        '6'
    } else if d == 7 {
        '7'
    } else if d == 8 {
        '8'
    } else {
        '9'
    }
}

/// The decimal digits of `n`, the most significant first, with no leading
/// zero but for zero itself.
pub open spec fn decimal(n: nat) -> Seq<char>
    decreases n,
{
    if n < 10 {
        seq![digit(n as int)]
    } else {
        decimal(n / 10).push(digit((n % 10) as int))
    }
}

/// The decimal digits of `n`, with a leading zero where there would be
/// one digit only.
pub open spec fn two_digits(n: nat) -> Seq<char> {
    if n < 10 {
        seq!['0'].push(digit(n as int))
    } else {
        decimal(n)
    }
}

/// The character of the decimal digit `d`.
pub fn digit_char(d: u8) -> (c: char)
    requires
        d < 10,
    ensures
        c == digit(d as int),
{
    match d {
        0 => '0',
        1 => '1',
        2 => '2',
        3 => '3',
        4 => '4',
        5 => '5',
        6 => '6',
        7 => '7',
        8 => '8',
        _ => '9',
    }
}

/// Appends the decimal digits of `n` to `out`.
pub fn push_decimal(out: &mut String, n: u128)
    ensures
        final(out)@ == old(out)@ + decimal(n as nat),
    decreases n,
{
    if n >= 10 {
        push_decimal(out, n / 10);
    }
    out.push(digit_char((n % 10) as u8));
    assert(out@ =~= old(out)@ + decimal(n as nat));
}

/// Appends the decimal digits of `n` to `out`, two of them at least.
pub fn push_two_digits(out: &mut String, n: u128)
    ensures
        final(out)@ == old(out)@ + two_digits(n as nat),
{
    if n < 10 {
        out.push('0');
    }
    push_decimal(out, n);
    assert(out@ =~= old(out)@ + two_digits(n as nat));
}

/// A line without the carriage return that may end it.
pub open spec fn without_carriage_return(line: Seq<char>) -> Seq<char> {
    if line.len() > 0 && line.last() == '\r' {
        line.drop_last()
    } else {
        line
    }
}

/// A text read from the left: the lines that a line feed has closed, and
/// the characters after the last line feed.
pub struct LineScan {
    pub closed: Seq<Seq<char>>,
    pub open: Seq<char>,
}

impl LineScan {
    /// The scan after one more character: a line feed closes the open
    /// line, any other character extends it.
    pub open spec fn step(self, c: char) -> LineScan {
        if c == '\n' {
            LineScan {
                closed: self.closed.push(without_carriage_return(self.open)),
                open: Seq::empty(),
            }
        } else {
            LineScan { open: self.open.push(c), ..self }
        }
    }

    /// The lines read so far; what follows the last line feed is a line
    /// if it holds a character.
    pub open spec fn lines(self) -> Seq<Seq<char>> {
        if self.open.len() > 0 {
            self.closed.push(self.open)
        } else {
            self.closed
        }
    }
}

/// The line scan of a whole text.
pub open spec fn line_scan(text: Seq<char>) -> LineScan
    decreases text.len(),
{
    if text.len() == 0 {
        LineScan { closed: Seq::empty(), open: Seq::empty() }
    } else {
        line_scan(text.drop_last()).step(text.last())
    }
}

/// The lines of a text: it is cut after each line feed, and a line is
/// given without its line feed and without a carriage return before that.
pub open spec fn lines(text: Seq<char>) -> Seq<Seq<char>> {
    line_scan(text).lines()
}

/// Splits a text into its lines.
pub fn split_lines(text: &str) -> (result: Vec<String>)
    ensures
        crate::data_loader::texts(result@) == lines(text@),
{
    let mut result: Vec<String> = Vec::new();
    let mut open = String::new();
    proof {
        assert(text@.take(0) =~= Seq::<char>::empty());
        assert(crate::data_loader::texts(result@) =~= Seq::<Seq<char>>::empty());
    }
    for c in it: text.chars()
        invariant
            it.seq() == text@,
            crate::data_loader::texts(result@) == line_scan(text@.take(it.index() as int)).closed,
            open@ == line_scan(text@.take(it.index() as int)).open,
    {
        proof {
            let before = text@.take(it.index() as int);
            let now = text@.take(it.index() as int + 1);
            assert(now.drop_last() =~= before);
            assert(now.last() == c);
        }
        if c == '\n' {
            let ghost line = open@;
            match open.pop() {
                Some(last) => {
                    if last != '\r' {
                        open.push(last);
                        assert(open@ =~= line);
                    }
                },
                None => {},
            }
            assert(open@ == without_carriage_return(line));
            let ghost closed = crate::data_loader::texts(result@);
            result.push(open);
            assert(crate::data_loader::texts(result@) =~= closed.push(open@));
            open = String::new();
        } else {
            open.push(c);
        }
    }
    assert(text@.take(text@.len() as int) =~= text@);
    if !open.as_str().is_empty() {
        let ghost closed = crate::data_loader::texts(result@);
        result.push(open);
        assert(crate::data_loader::texts(result@) =~= closed.push(open@));
    }
    result
}

} // verus!
