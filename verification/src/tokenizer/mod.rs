pub mod lines;
pub mod number;
pub mod scan;
pub mod token;

pub use lines::{is_comment_line, join_code_lines, split_code_lines};
pub use number::decimal_value;
pub use token::{Keyword, Token, TokenView};

use crate::location::Location;
use crate::model::{lemma_views_push, view_of, views};
use crate::stream::ElementStream;
use crate::text::{chars_of, is_alphabetic, is_numeric, string_from, text_eq};
use scan::{
    keyword_of, lemma_run_len_split, lemma_step_advances, number_token, run_len, scan, scan_end,
    step, strip_comments, Run, ScanState,
};
use vstd::prelude::*;

verus! {

impl Run {
    /// Whether a run of this kind goes on over `character`.
    pub fn takes(self, character: char) -> (goes_on: bool)
        ensures
            goes_on == self.admits(character),
    {
        match self {
            Run::Line => character != '\n',
            Run::Text => character != '"',
            Run::Word => is_alphabetic(character) || character == '_',
            Run::Number => is_numeric(character),
        }
    }
}

/// The scanner: it turns the characters of a script into tokens.
pub struct Tokenizer {
    stream: ElementStream<char>,
    new_lines: usize,
    last_line_length: usize,
}

impl Tokenizer {
    /// What holds of every scanner between calls: the position lies inside the text or at
    /// its end, and neither the line count nor the start of the line lies beyond it.
    pub closed spec fn well_formed(&self) -> bool {
        &&& self.last_line_length <= self.stream.position()
        &&& self.new_lines <= self.stream.position()
        &&& self.stream.position() <= self.stream.elements().len()
    }

    /// A scanner at the start of `script`, with the comment lines of the script left out.
    pub fn new(script: String) -> (tokenizer: Self)
        ensures
            tokenizer.well_formed(),
            tokenizer.text() == strip_comments(script@),
            tokenizer.state() == scan::start(),
    {
        let characters = chars_of(script.as_str());
        let lines = split_code_lines(&characters);
        let text = join_code_lines(&lines);
        Self { stream: ElementStream::new(text), new_lines: 0, last_line_length: 0 }
    }

    /// The characters that the scanner works on.
    pub closed spec fn text(&self) -> Seq<char> {
        self.stream.elements()
    }

    /// Where the scanner stands in its text.
    pub closed spec fn state(&self) -> ScanState {
        ScanState {
            at: self.stream.position() as int,
            line: self.new_lines as int,
            line_start: self.last_line_length as int,
        }
    }

    /// Scans the rest of the text: the tokens from the position on, in order, followed by
    /// the end marker. Afterwards the scanner stands at the end of the text.
    pub fn process(&mut self) -> (tokens: Vec<Token>)
        requires
            old(self).well_formed(),
        ensures
            final(self).well_formed(),
            final(self).text() == old(self).text(),
            final(self).state() == scan_end(old(self).text(), old(self).state()),
            views(tokens@) == scan(old(self).text(), old(self).state()),
    {
        let ghost text = self.text();
        let ghost begin = self.state();
        let mut tokens: Vec<Token> = Vec::new();
        assert(views(tokens@) + scan(text, begin) == scan(text, begin));
        loop
            invariant
                self.well_formed(),
                self.text() == text,
                0 <= self.state().at <= text.len(),
                views(tokens@) + scan(text, self.state()) == scan(text, begin),
                scan_end(text, self.state()) == scan_end(text, begin),
            ensures
                self.state().at == text.len(),
            decreases text.len() - self.state().at,
        {
            let character = match self.stream.peek() {
                Some(character) => character,
                None => {
                    break ;
                },
            };
            let ghost before = self.state();
            let ghost scanned = views(tokens@);
            proof {
                lemma_step_advances(text, before);
            }
            let location = Location {
                line: self.new_lines,
                column: self.stream.position() - self.last_line_length,
            };
            let mut should_consume = true;
            let token = match character {
                '+' => Some(Token::Plus(location)),
                '-' => Some(Token::Minus(location)),
                '*' => Some(Token::Asterisk(location)),
                '/' => Some(Token::Slash(location)),
                ':' => Some(Token::Colon(location)),
                '=' => Some(Token::Equals(location)),
                '"' => {
                    self.stream.consume();
                    should_consume = false;
                    self.parse_string(location)
                },
                '\n' => {
                    self.stream.consume();
                    self.new_lines += 1;
                    self.last_line_length = self.stream.position();
                    should_consume = false;
                    None
                },
                _ => {
                    if is_numeric(character) {
                        should_consume = false;
                        self.parse_integer(location)
                    } else if is_alphabetic(character) || character == '_' {
                        let identifier = self.read_string(Run::Word);
                        should_consume = false;
                        match Self::parse_keyword(&identifier, &location) {
                            Some(value) => Some(value),
                            None => Some(Token::Identifier(identifier, location)),
                        }
                    } else {
                        None
                    }
                },
            };
            assert(view_of(token) == step(text, before).0);
            match token {
                Some(value) => {
                    proof {
                        lemma_views_push(tokens@, value);
                    }
                    tokens.push(value);
                },
                None => {},
            }
            if should_consume {
                self.stream.consume();
            }
            assert(self.state() == step(text, before).1);
            assert(views(tokens@) + scan(text, self.state()) == scanned + scan(text, before));
        }
        let location = Location { line: self.new_lines, column: self.stream.position() };
        let end = Token::EndOfFile(location);
        proof {
            lemma_views_push(tokens@, end);
            assert(scan(text, self.state()) == seq![end@]);
            assert(views(tokens@).push(end@) == views(tokens@) + seq![end@]);
        }
        tokens.push(end);
        tokens
    }

    /// Reads the longest run of the given kind that starts at the position, and stops
    /// behind it.
    fn read_run(&mut self, run: Run) -> (characters: Vec<char>)
        requires
            old(self).well_formed(),
        ensures
            final(self).well_formed(),
            final(self).text() == old(self).text(),
            final(self).state() == old(self).state().moved_to(
                old(self).state().at + run_len(old(self).text(), old(self).state().at, run),
            ),
            characters@ == old(self).text().subrange(
                old(self).state().at,
                final(self).state().at,
            ),
    {
        let ghost text = self.text();
        let ghost begin = self.state();
        let mut characters: Vec<char> = Vec::new();
        loop
            invariant
                self.well_formed(),
                self.text() == text,
                self.state() == begin.moved_to(self.state().at),
                0 <= begin.at <= self.state().at <= text.len(),
                forall|i: int| begin.at <= i < self.state().at ==> run.admits(#[trigger] text[i]),
                characters@ == text.subrange(begin.at, self.state().at),
            ensures
                run_len(text, self.state().at, run) == 0,
            decreases text.len() - self.state().at,
        {
            match self.stream.peek() {
                None => {
                    break ;
                },
                Some(character) => {
                    if !run.takes(character) {
                        break ;
                    }
                    self.stream.consume();
                    characters.push(character);
                    assert(characters@ == text.subrange(begin.at, self.state().at));
                },
            }
        }
        proof {
            lemma_run_len_split(text, begin.at, self.state().at, run);
        }
        characters
    }

    /// Reads the longest run of the given kind that starts at the position, as a string.
    fn read_string(&mut self, run: Run) -> (text: String)
        requires
            old(self).well_formed(),
        ensures
            final(self).well_formed(),
            final(self).text() == old(self).text(),
            final(self).state() == old(self).state().moved_to(
                old(self).state().at + run_len(old(self).text(), old(self).state().at, run),
            ),
            text@ == old(self).text().subrange(old(self).state().at, final(self).state().at),
    {
        let characters = self.read_run(run);
        string_from(characters)
    }

    /// Reads a run of numeric characters and makes an integer token of it. The digits
    /// accumulate as 32-bit unsigned arithmetic does, so the value is the number modulo
    /// 2^32; a run with a character that is no decimal digit gives no token.
    fn parse_integer(&mut self, location: Location) -> (token: Option<Token>)
        requires
            old(self).well_formed(),
        ensures
            final(self).well_formed(),
            final(self).text() == old(self).text(),
            final(self).state() == old(self).state().moved_to(
                old(self).state().at + run_len(
                    old(self).text(),
                    old(self).state().at,
                    Run::Number,
                ),
            ),
            view_of(token) == number_token(
                old(self).text().subrange(old(self).state().at, final(self).state().at),
                location,
            ),
    {
        let characters = self.read_run(Run::Number);
        match decimal_value(&characters) {
            Some(value) => Some(Token::Integer(value, location)),
            None => None,
        }
    }

    /// The keyword token for `identifier`, if it spells a keyword.
    fn parse_keyword(identifier: &String, location: &Location) -> (token: Option<Token>)
        ensures
            view_of(token) == match keyword_of(identifier@) {
                Some(keyword) => Some(TokenView::Keyword(keyword, *location)),
                None => None,
            },
    {
        proof {
            reveal_strlit("let");
            assert("let"@ =~= seq!['l', 'e', 't']);
        }
        if text_eq(identifier.as_str(), "let") {
            Some(Token::Keyword(Keyword::Let, *location))
        } else {
            None
        }
    }

    /// Reads the body of a string literal, up to the next double quote or the end of the
    /// text, and makes a token of it.
    fn parse_string(&mut self, location: Location) -> (token: Option<Token>)
        requires
            old(self).well_formed(),
        ensures
            final(self).well_formed(),
            final(self).text() == old(self).text(),
            final(self).state() == old(self).state().moved_to(
                old(self).state().at + run_len(
                    old(self).text(),
                    old(self).state().at,
                    Run::Text,
                ),
            ),
            view_of(token) == Some(
                TokenView::String(
                    old(self).text().subrange(old(self).state().at, final(self).state().at),
                    location,
                ),
            ),
    {
        let value = self.read_string(Run::Text);
        Some(Token::String(value, location))
    }
}

} // verus!
