use crate::tokenizer::token::{Token, TokenView};
use vstd::prelude::*;

verus! {

/// Why a parse was given up.
#[derive(Debug, PartialEq)]
pub enum ParserError {
    /// A token was needed where the tokens had run out.
    UnexpectedEOF,
    /// The token cannot start an operand, or is no operator.
    UnknownToken(Token),
    /// The token stands where an identifier, `=` or `:` was needed.
    UnexpectedToken(Token),
    /// The named token was needed and another was found.
    ExpectedToken(String),
}

/// What a parser error is, with every text as a sequence of characters.
pub enum ParserErrorView {
    UnexpectedEOF,
    UnknownToken(TokenView),
    UnexpectedToken(TokenView),
    ExpectedToken(Seq<char>),
}

impl View for ParserError {
    type V = ParserErrorView;

    open spec fn view(&self) -> ParserErrorView {
        match *self {
            ParserError::UnexpectedEOF => ParserErrorView::UnexpectedEOF,
            ParserError::UnknownToken(token) => ParserErrorView::UnknownToken(token@),
            ParserError::UnexpectedToken(token) => ParserErrorView::UnexpectedToken(token@),
            ParserError::ExpectedToken(expected) => ParserErrorView::ExpectedToken(expected@),
        }
    }
}

} // verus!
