//! The grammar, as functions from a sequence of tokens and a position to what is parsed
//! there and the position behind it.
//!
//! ```text
//! program    := expression* until the end marker
//! expression := operand (operator expression)?
//! operand    := integer | string | "let" identifier (":" identifier)? "=" expression
//! ```
//!
//! Every operator binds alike and to the right: `1 - 2 - 3` is `1 - (2 - 3)`, and
//! `1 * 2 + 3` is `1 * (2 + 3)`. No production yields an assignment or a reference.

use crate::location::Location;
use crate::parser::error::ParserErrorView;
use crate::parser::node::{BinaryOperator, LiteralView, NodeView};
use crate::tokenizer::token::{Keyword, TokenView};
use vstd::prelude::*;

verus! {

/// What parsing one construct gives: the node and the position behind it, or the error.
pub type Parsed = Result<(NodeView, int), ParserErrorView>;

/// The operator that a token stands for, if it stands for one.
pub open spec fn operator_of(token: TokenView) -> Option<BinaryOperator> {
    match token {
        TokenView::Plus(_) => Some(BinaryOperator::Plus),
        TokenView::Minus(_) => Some(BinaryOperator::Minus),
        TokenView::Asterisk(_) => Some(BinaryOperator::Multiply),
        TokenView::Slash(_) => Some(BinaryOperator::Divide),
        _ => None,
    }
}

/// The identifier at the position.
pub open spec fn identifier_at(tokens: Seq<TokenView>, at: int) -> Result<
    Seq<char>,
    ParserErrorView,
> {
    if 0 <= at < tokens.len() {
        match tokens[at] {
            TokenView::Identifier(name, _) => Ok(name),
            token => Err(ParserErrorView::UnexpectedToken(token)),
        }
    } else {
        Err(ParserErrorView::UnexpectedEOF)
    }
}

/// The declaration whose expression starts at the position.
pub open spec fn parse_let_body(
    tokens: Seq<TokenView>,
    at: int,
    name: Seq<char>,
    declared: Option<Seq<char>>,
    location: Location,
) -> Parsed
    decreases tokens.len() - at, 3int,
{
    match parse_expression(tokens, at) {
        Ok((expression, next)) => Ok(
            (
                NodeView::LetOperation { name, declared, expression: Box::new(expression), location },
                next,
            ),
        ),
        Err(error) => Err(error),
    }
}

/// The rest of a declaration behind `let name :`: the name of the type, `=`, and the
/// expression.
pub open spec fn parse_typed_let(
    tokens: Seq<TokenView>,
    at: int,
    name: Seq<char>,
    location: Location,
) -> Parsed
    decreases tokens.len() - at, 4int,
{
    match identifier_at(tokens, at) {
        Err(error) => Err(error),
        Ok(declared) => if at + 1 < tokens.len() {
            match tokens[at + 1] {
                TokenView::Equals(_) => parse_let_body(
                    tokens,
                    at + 2,
                    name,
                    Some(declared),
                    location,
                ),
                _ => Err(ParserErrorView::ExpectedToken("="@)),
            }
        } else {
            Err(ParserErrorView::UnexpectedEOF)
        },
    }
}

/// The rest of a declaration behind the keyword `let`, which stood at `location`.
pub open spec fn parse_let(tokens: Seq<TokenView>, at: int, location: Location) -> Parsed
    decreases tokens.len() - at, 5int,
{
    match identifier_at(tokens, at) {
        Err(error) => Err(error),
        Ok(name) => if at + 1 < tokens.len() {
            match tokens[at + 1] {
                TokenView::Equals(_) => parse_let_body(tokens, at + 2, name, None, location),
                TokenView::Colon(_) => parse_typed_let(tokens, at + 2, name, location),
                token => Err(ParserErrorView::UnexpectedToken(token)),
            }
        } else {
            Err(ParserErrorView::UnexpectedEOF)
        },
    }
}

/// The operand at the position: a literal or a declaration.
pub open spec fn parse_operand(tokens: Seq<TokenView>, at: int) -> Parsed
    decreases tokens.len() - at, 1int,
{
    if 0 <= at < tokens.len() {
        match tokens[at] {
            TokenView::Integer(value, location) => Ok(
                (NodeView::Literal { literal: LiteralView::Integer(value), location }, at + 1),
            ),
            TokenView::String(text, location) => Ok(
                (NodeView::Literal { literal: LiteralView::String(text), location }, at + 1),
            ),
            TokenView::Keyword(Keyword::Let, location) => parse_let(tokens, at + 1, location),
            token => Err(ParserErrorView::UnknownToken(token)),
        }
    } else {
        Err(ParserErrorView::UnexpectedEOF)
    }
}

/// The binary operation with the given left operand and operator token, whose right
/// operand starts at the position.
pub open spec fn parse_binary_operation(
    tokens: Seq<TokenView>,
    at: int,
    left: NodeView,
    operand: TokenView,
) -> Parsed
    decreases tokens.len() - at, 3int,
{
    match parse_expression(tokens, at) {
        Err(error) => Err(error),
        Ok((right, next)) => match operator_of(operand) {
            Some(operator) => Ok(
                (
                    NodeView::BinaryOperation {
                        left: Box::new(left),
                        operator,
                        right: Box::new(right),
                        location: operand.location(),
                    },
                    next,
                ),
            ),
            None => Err(ParserErrorView::UnknownToken(operand)),
        },
    }
}

/// The expression at the position: an operand, and where an operator follows it, the
/// operation of the two with the whole expression behind the operator.
///
/// An operand always ends behind the position where it starts (`lemma_parse_advances`);
/// the test `at < next` is there for the recursion to be seen to end.
pub open spec fn parse_expression(tokens: Seq<TokenView>, at: int) -> Parsed
    decreases tokens.len() - at, 2int,
{
    match parse_operand(tokens, at) {
        Err(error) => Err(error),
        Ok((first, next)) => if at < next < tokens.len() && operator_of(tokens[next]) is Some {
            parse_binary_operation(tokens, next + 1, first, tokens[next])
        } else {
            Ok((first, next))
        },
    }
}

/// Whether the program ends at the position: at the end marker, or where the tokens
/// run out.
pub open spec fn at_end(tokens: Seq<TokenView>, at: int) -> bool {
    !(0 <= at < tokens.len()) || tokens[at] is EndOfFile
}

/// The expressions from the position up to the end marker, or the first error.
///
/// An expression always ends behind the position where it starts and inside the tokens
/// (`lemma_parse_advances`); the test on `next` is there for the recursion to be seen to
/// end.
pub open spec fn parse_program(tokens: Seq<TokenView>, at: int) -> Result<
    Seq<NodeView>,
    ParserErrorView,
>
    decreases tokens.len() - at,
{
    if at_end(tokens, at) {
        Ok(Seq::empty())
    } else {
        match parse_expression(tokens, at) {
            Err(error) => Err(error),
            Ok((node, next)) => if at < next <= tokens.len() {
                match parse_program(tokens, next) {
                    Err(error) => Err(error),
                    Ok(nodes) => Ok(seq![node] + nodes),
                }
            } else {
                Ok(seq![node])
            },
        }
    }
}

/// Whatever is parsed ends behind the position where it starts, and inside the tokens.
pub proof fn lemma_parse_advances(tokens: Seq<TokenView>, at: int)
    ensures
        parse_operand(tokens, at) matches Ok((_, next)) ==> at < next <= tokens.len(),
        parse_expression(tokens, at) matches Ok((_, next)) ==> at < next <= tokens.len(),
    decreases tokens.len() - at,
{
    if 0 <= at < tokens.len() {
        if tokens[at] matches TokenView::Keyword(Keyword::Let, location) {
            if identifier_at(tokens, at + 1) is Ok && at + 2 < tokens.len() {
                if tokens[at + 2] is Equals {
                    lemma_parse_advances(tokens, at + 3);
                } else if tokens[at + 2] is Colon {
                    if identifier_at(tokens, at + 3) is Ok && at + 4 < tokens.len()
                        && tokens[at + 4] is Equals {
                        lemma_parse_advances(tokens, at + 5);
                    }
                }
            }
        }
        match parse_operand(tokens, at) {
            Ok((_, next)) => {
                if at < next < tokens.len() && operator_of(tokens[next]) is Some {
                    lemma_parse_advances(tokens, next + 1);
                }
            },
            Err(_) => {},
        }
    }
}

} // verus!
