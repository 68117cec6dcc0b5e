use crate::location::Location;
use vstd::prelude::*;

verus! {

/// The words that the language reserves.
#[derive(Debug, Clone, Copy, PartialEq, Eq, Structural)]
pub enum Keyword {
    Let,
}

/// A lexical unit with the place where it starts.
#[derive(Debug, PartialEq)]
pub enum Token {
    Keyword(Keyword, Location),
    Integer(u32, Location),
    String(String, Location),
    Identifier(String, Location),
    Plus(Location),
    Minus(Location),
    Slash(Location),
    Asterisk(Location),
    Equals(Location),
    Colon(Location),
    EndOfFile(Location),
}

/// What a token is, with its text as a sequence of characters.
pub enum TokenView {
    Keyword(Keyword, Location),
    Integer(u32, Location),
    String(Seq<char>, Location),
    Identifier(Seq<char>, Location),
    Plus(Location),
    Minus(Location),
    Slash(Location),
    Asterisk(Location),
    Equals(Location),
    Colon(Location),
    EndOfFile(Location),
}

impl TokenView {
    /// The place where the token starts.
    pub open spec fn location(self) -> Location {
        match self {
            TokenView::Keyword(_, location) => location,
            TokenView::Integer(_, location) => location,
            TokenView::String(_, location) => location,
            TokenView::Identifier(_, location) => location,
            TokenView::Plus(location) => location,
            TokenView::Minus(location) => location,
            TokenView::Slash(location) => location,
            TokenView::Asterisk(location) => location,
            TokenView::Equals(location) => location,
            TokenView::Colon(location) => location,
            TokenView::EndOfFile(location) => location,
        }
    }
}

impl View for Token {
    type V = TokenView;

    open spec fn view(&self) -> TokenView {
        match *self {
            Token::Keyword(keyword, location) => TokenView::Keyword(keyword, location),
            Token::Integer(value, location) => TokenView::Integer(value, location),
            Token::String(text, location) => TokenView::String(text@, location),
            Token::Identifier(name, location) => TokenView::Identifier(name@, location),
            Token::Plus(location) => TokenView::Plus(location),
            Token::Minus(location) => TokenView::Minus(location),
            Token::Slash(location) => TokenView::Slash(location),
            Token::Asterisk(location) => TokenView::Asterisk(location),
            Token::Equals(location) => TokenView::Equals(location),
            Token::Colon(location) => TokenView::Colon(location),
            Token::EndOfFile(location) => TokenView::EndOfFile(location),
        }
    }
}

impl Clone for Token {
    fn clone(&self) -> (copy: Token)
        ensures
            copy == *self,
    {
        match self {
            Token::Keyword(keyword, location) => Token::Keyword(*keyword, *location),
            Token::Integer(value, location) => Token::Integer(*value, *location),
            Token::String(text, location) => Token::String(text.clone(), *location),
            Token::Identifier(name, location) => Token::Identifier(name.clone(), *location),
            Token::Plus(location) => Token::Plus(*location),
            Token::Minus(location) => Token::Minus(*location),
            Token::Slash(location) => Token::Slash(*location),
            Token::Asterisk(location) => Token::Asterisk(*location),
            Token::Equals(location) => Token::Equals(*location),
            Token::Colon(location) => Token::Colon(*location),
            Token::EndOfFile(location) => Token::EndOfFile(*location),
        }
    }
}

impl Token {
    /// The place where the token starts.
    pub fn location(self) -> (location: Location)
        ensures
            location == self@.location(),
    {
        match self {
            Token::Keyword(_, location) => location,
            Token::Integer(_, location) => location,
            Token::String(_, location) => location,
            Token::Identifier(_, location) => location,
            Token::Plus(location) => location,
            Token::Minus(location) => location,
            Token::Slash(location) => location,
            Token::Asterisk(location) => location,
            Token::Equals(location) => location,
            Token::Colon(location) => location,
            Token::EndOfFile(location) => location,
        }
    }
}

} // verus!
