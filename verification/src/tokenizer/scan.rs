//! What the scanner computes, as functions on sequences of characters.

use crate::location::Location;
use crate::text::{alphabetic, digit_value, numeric};
use crate::tokenizer::token::{Keyword, TokenView};
use vstd::prelude::*;

verus! {

/// The kinds of runs that the scanner reads in one go.
#[derive(Debug, Clone, Copy, PartialEq, Eq, Structural)]
pub enum Run {
    /// Everything up to the next line feed.
    Line,
    /// The body of a string literal: everything up to the next double quote.
    Text,
    /// Letters and underscores.
    Word,
    /// Numeric characters.
    Number,
}

impl Run {
    /// Whether a run of this kind goes on over `character`.
    pub open spec fn admits(self, character: char) -> bool {
        match self {
            Run::Line => character != '\n',
            Run::Text => character != '"',
            Run::Word => alphabetic(character) || character == '_',
            Run::Number => numeric(character),
        }
    }
}

/// The length of the longest run of the given kind that starts at `from`.
pub open spec fn run_len(text: Seq<char>, from: int, run: Run) -> nat
    decreases text.len() - from,
{
    if 0 <= from < text.len() && run.admits(text[from]) {
        1 + run_len(text, from + 1, run)
    } else {
        0
    }
}

/// A run stays inside the text, holds only characters of its kind, and ends at the end of
/// the text or before a character that is not of its kind.
pub proof fn lemma_run_len(text: Seq<char>, from: int, run: Run)
    requires
        0 <= from <= text.len(),
    ensures
        from + run_len(text, from, run) <= text.len(),
        forall|i: int| from <= i < from + run_len(text, from, run) ==> run.admits(#[trigger] text[i]),
        from + run_len(text, from, run) < text.len() ==> !run.admits(
            text[from + run_len(text, from, run)],
        ),
    decreases text.len() - from,
{
    if from < text.len() && run.admits(text[from]) {
        lemma_run_len(text, from + 1, run);
    }
}

/// A run that has reached `to` over characters of its kind goes on from `to` as a run
/// that starts there would.
pub proof fn lemma_run_len_split(text: Seq<char>, from: int, to: int, run: Run)
    requires
        0 <= from <= to <= text.len(),
        forall|i: int| from <= i < to ==> run.admits(#[trigger] text[i]),
    ensures
        from + run_len(text, from, run) == to + run_len(text, to, run),
    decreases to - from,
{
    if from < to {
        lemma_run_len_split(text, from + 1, to, run);
    }
}

/// The lines of the part of `text` that starts at `from`: the pieces between line feeds.
/// There is always at least one line, and a line feed at the very end is followed by an
/// empty line.
pub open spec fn lines_from(text: Seq<char>, from: int) -> Seq<Seq<char>>
    decreases text.len() - from,
{
    let end = from + run_len(text, from, Run::Line);
    if 0 <= from && end < text.len() {
        seq![text.subrange(from, end)] + lines_from(text, end + 1)
    } else {
        seq![text.subrange(from, end)]
    }
}

/// A comment is a line that starts with `#`.
pub open spec fn is_comment(line: Seq<char>) -> bool {
    line.len() > 0 && line[0] == '#'
}

/// The lines put together again, with a line feed between each two.
pub open spec fn join_lines(lines: Seq<Seq<char>>) -> Seq<char>
    decreases lines.len(),
{
    if lines.len() == 0 {
        Seq::empty()
    } else if lines.len() == 1 {
        lines[0]
    } else {
        join_lines(lines.drop_last()) + seq!['\n'] + lines.last()
    }
}

/// The test that keeps the lines that are no comments.
pub open spec fn is_code() -> spec_fn(Seq<char>) -> bool {
    |line: Seq<char>| !is_comment(line)
}

/// The lines of a script that are no comments, in their order.
pub open spec fn code_lines(script: Seq<char>) -> Seq<Seq<char>> {
    lines_from(script, 0).filter(is_code())
}

/// The script without its comment lines.
pub open spec fn strip_comments(script: Seq<char>) -> Seq<char> {
    join_lines(code_lines(script))
}

/// Whether every character is one of `0` to `9`.
pub open spec fn all_decimal(digits: Seq<char>) -> bool {
    forall|i: int| 0 <= i < digits.len() ==> (#[trigger] digit_value(digits[i])) is Some
}

/// The number that a sequence of decimal digits denotes.
pub open spec fn decimal_number(digits: Seq<char>) -> nat
    decreases digits.len(),
{
    if digits.len() == 0 {
        0
    } else {
        decimal_number(digits.drop_last()) * 10 + match digit_value(digits.last()) {
            Some(digit) => digit as nat,
            None => 0,
        }
    }
}

/// The value of an integer literal: the number that its digits denote, reduced modulo
/// 2^32. A run of numeric characters that are not all decimal digits has no value.
pub open spec fn literal_value(digits: Seq<char>) -> Option<u32> {
    if all_decimal(digits) {
        Some((decimal_number(digits) % 0x1_0000_0000) as u32)
    } else {
        None
    }
}

/// The token for a run of numeric characters, if the run has a value.
pub open spec fn number_token(digits: Seq<char>, location: Location) -> Option<TokenView> {
    match literal_value(digits) {
        Some(value) => Some(TokenView::Integer(value, location)),
        None => None,
    }
}

/// The keyword that `word` spells, if it spells one.
pub open spec fn keyword_of(word: Seq<char>) -> Option<Keyword> {
    if word == seq!['l', 'e', 't'] {
        Some(Keyword::Let)
    } else {
        None
    }
}

/// The token for a word: a keyword where the word spells one, an identifier otherwise.
pub open spec fn word_token(word: Seq<char>, location: Location) -> TokenView {
    match keyword_of(word) {
        Some(keyword) => TokenView::Keyword(keyword, location),
        None => TokenView::Identifier(word, location),
    }
}

/// Where the scanner stands: the position in the text, the number of line feeds it has
/// passed, and the position just after the last of them.
pub struct ScanState {
    pub at: int,
    pub line: int,
    pub line_start: int,
}

impl ScanState {
    /// The place of the character at the position, by line and column.
    pub open spec fn location(self) -> Location {
        Location { line: self.line as usize, column: (self.at - self.line_start) as usize }
    }

    /// The same line, at another position.
    pub open spec fn moved_to(self, at: int) -> ScanState {
        ScanState { at, line: self.line, line_start: self.line_start }
    }
}

/// One step of the scanner at a position inside the text: the token that starts at the
/// position, if one does, and the state after it.
///
/// A string literal starts after a double quote and ends before the next one, which is
/// left in place; so the closing quote of one literal opens the next.
pub open spec fn step(text: Seq<char>, state: ScanState) -> (Option<TokenView>, ScanState) {
    let character = text[state.at];
    let here = state.location();
    let next = state.moved_to(state.at + 1);
    if character == '+' {
        (Some(TokenView::Plus(here)), next)
    } else if character == '-' {
        (Some(TokenView::Minus(here)), next)
    } else if character == '*' {
        (Some(TokenView::Asterisk(here)), next)
    } else if character == '/' {
        (Some(TokenView::Slash(here)), next)
    } else if character == ':' {
        (Some(TokenView::Colon(here)), next)
    } else if character == '=' {
        (Some(TokenView::Equals(here)), next)
    } else if character == '"' {
        let end = state.at + 1 + run_len(text, state.at + 1, Run::Text);
        (Some(TokenView::String(text.subrange(state.at + 1, end), here)), state.moved_to(end))
    } else if character == '\n' {
        (None, ScanState { at: state.at + 1, line: state.line + 1, line_start: state.at + 1 })
    } else if numeric(character) {
        let end = state.at + run_len(text, state.at, Run::Number);
        (number_token(text.subrange(state.at, end), here), state.moved_to(end))
    } else if alphabetic(character) || character == '_' {
        let end = state.at + run_len(text, state.at, Run::Word);
        (Some(word_token(text.subrange(state.at, end), here)), state.moved_to(end))
    } else {
        (None, next)
    }
}

/// Every step moves forward, and none moves past the end of the text.
pub proof fn lemma_step_advances(text: Seq<char>, state: ScanState)
    requires
        0 <= state.at < text.len(),
    ensures
        state.at < step(text, state).1.at <= text.len(),
{
    lemma_run_len(text, state.at + 1, Run::Text);
    lemma_run_len(text, state.at, Run::Number);
    lemma_run_len(text, state.at, Run::Word);
}

/// The token that marks the end of the text. Its column is the position in the text, not
/// the distance from the start of the line.
pub open spec fn end_token(state: ScanState) -> TokenView {
    TokenView::EndOfFile(Location { line: state.line as usize, column: state.at as usize })
}

/// The tokens of the text from the given state on, the end marker last.
pub open spec fn scan(text: Seq<char>, state: ScanState) -> Seq<TokenView>
    decreases text.len() - state.at,
{
    if 0 <= state.at < text.len() {
        let (token, next) = step(text, state);
        proof {
            lemma_step_advances(text, state);
        }
        match token {
            Some(token) => seq![token] + scan(text, next),
            None => scan(text, next),
        }
    } else {
        seq![end_token(state)]
    }
}

/// The tokens end with the end marker, and hold no other.
pub proof fn lemma_scan_ends(text: Seq<char>, state: ScanState)
    ensures
        scan(text, state).len() > 0,
        scan(text, state).last() is EndOfFile,
        forall|i: int| 0 <= i < scan(text, state).len() - 1 ==> !(scan(text, state)[i] is EndOfFile),
    decreases text.len() - state.at,
{
    if 0 <= state.at < text.len() {
        lemma_step_advances(text, state);
        lemma_scan_ends(text, step(text, state).1);
    }
}

/// The state in which the scanner stops when it starts from the given one.
pub open spec fn scan_end(text: Seq<char>, state: ScanState) -> ScanState
    decreases text.len() - state.at,
{
    if 0 <= state.at < text.len() {
        proof {
            lemma_step_advances(text, state);
        }
        scan_end(text, step(text, state).1)
    } else {
        state
    }
}

/// The state before the first character of a script.
pub open spec fn start() -> ScanState {
    ScanState { at: 0, line: 0, line_start: 0 }
}

} // verus!
