pub mod error;
pub mod grammar;
pub mod node;

pub use error::{ParserError, ParserErrorView};
pub use node::{
    AssignmentOperationNode, BinaryOperationNode, BinaryOperator, LetOperationNode, Literal,
    LiteralView, Node, NodeView, VariableReference, VariableReferenceView,
};

use crate::location::Location;
use crate::model::{lemma_views_push, views};
use crate::stream::ElementStream;
use crate::tokenizer::token::{Keyword, Token, TokenView};
use grammar::{
    at_end, identifier_at, lemma_parse_advances, parse_binary_operation, parse_expression,
    parse_let, parse_let_body, parse_operand, parse_program, parse_typed_let, Parsed,
};
use vstd::prelude::*;

verus! {

/// What an attempt to parse one construct gave, beside the position where it stopped.
pub open spec fn parsed_view(result: Result<Node, ParserError>, next: int) -> Parsed {
    match result {
        Ok(node) => Ok((node@, next)),
        Err(error) => Err(error@),
    }
}

/// What an attempt to parse a program gave.
pub open spec fn program_view(result: Result<Vec<Node>, ParserError>) -> Result<
    Seq<NodeView>,
    ParserErrorView,
> {
    match result {
        Ok(nodes) => Ok(views(nodes@)),
        Err(error) => Err(error@),
    }
}

/// The nodes parsed so far, followed by what the rest of the program gives.
pub open spec fn followed_by(
    nodes: Seq<NodeView>,
    rest: Result<Seq<NodeView>, ParserErrorView>,
) -> Result<Seq<NodeView>, ParserErrorView> {
    match rest {
        Ok(more) => Ok(nodes + more),
        Err(error) => Err(error),
    }
}

/// The parser: it turns tokens into syntax trees, by recursive descent with one token of
/// look-ahead, and gives up at the first error.
pub struct Parser {
    stream: ElementStream<Token>,
}

impl Parser {
    /// The tokens that the parser works on.
    pub closed spec fn tokens(&self) -> Seq<TokenView> {
        views(self.stream.elements())
    }

    /// The number of tokens that the parser has taken.
    pub closed spec fn position(&self) -> int {
        self.stream.position() as int
    }

    /// A parser at the first of `tokens`.
    pub fn new(tokens: Vec<Token>) -> (parser: Self)
        ensures
            parser.tokens() == views(tokens@),
            parser.position() == 0,
    {
        Self { stream: ElementStream::new(tokens) }
    }

    /// Parses expressions until the end marker or the end of the tokens, and hands them
    /// out in order; or gives the first error.
    pub fn try_parse(&mut self) -> (result: Result<Vec<Node>, ParserError>)
        ensures
            final(self).tokens() == old(self).tokens(),
            final(self).position() >= old(self).position(),
            result is Ok ==> at_end(final(self).tokens(), final(self).position()),
            program_view(result) == parse_program(old(self).tokens(), old(self).position()),
    {
        let ghost tokens = self.tokens();
        let ghost begin = self.position();
        let mut nodes: Vec<Node> = Vec::new();
        assert(views(nodes@) + Seq::<NodeView>::empty() == views(nodes@));
        assert(followed_by(views(nodes@), parse_program(tokens, begin)) == parse_program(
            tokens,
            begin,
        )) by {
            match parse_program(tokens, begin) {
                Ok(more) => {
                    assert(views(nodes@) + more == more);
                },
                Err(_) => {},
            }
        }
        loop
            invariant
                tokens == old(self).tokens(),
                begin == old(self).position(),
                self.tokens() == tokens,
                self.position() >= begin,
                followed_by(views(nodes@), parse_program(tokens, self.position()))
                    == parse_program(tokens, begin),
            ensures
                at_end(tokens, self.position()),
            decreases tokens.len() - self.position(),
        {
            match self.stream.peek() {
                None => {
                    break ;
                },
                Some(token) => {
                    if let Token::EndOfFile(_) = token {
                        break ;
                    }
                },
            }
            let ghost at = self.position();
            let ghost parsed = views(nodes@);
            proof {
                lemma_parse_advances(tokens, at);
            }
            match self.try_parse_expression() {
                Err(error) => {
                    return Err(error);
                },
                Ok(node) => {
                    proof {
                        lemma_views_push(nodes@, node);
                        match parse_program(tokens, self.position()) {
                            Ok(more) => {
                                assert(parsed.push(node@) + more == parsed + (seq![node@] + more));
                            },
                            Err(_) => {},
                        }
                    }
                    nodes.push(node);
                },
            }
        }
        assert(views(nodes@) + Seq::<NodeView>::empty() == views(nodes@));
        Ok(nodes)
    }

    /// Parses an expression: an operand and, where an operator follows, the operation that
    /// the operator makes of it and of the expression behind.
    fn try_parse_expression(&mut self) -> (result: Result<Node, ParserError>)
        ensures
            final(self).tokens() == old(self).tokens(),
            final(self).position() >= old(self).position(),
            parsed_view(result, final(self).position()) == parse_expression(
                old(self).tokens(),
                old(self).position(),
            ),
        decreases old(self).tokens().len() - old(self).position(), 2int,
    {
        proof {
            lemma_parse_advances(self.tokens(), self.position());
        }
        let first_node = match self.try_parse_literal() {
            Ok(node) => node,
            Err(error) => {
                return Err(error);
            },
        };
        // The next token decides whether an operation follows.
        let token = match self.try_peek() {
            Ok(token) => token,
            Err(_) => {
                return Ok(first_node);
            },
        };
        match token {
            Token::Plus(_) | Token::Asterisk(_) | Token::Slash(_) | Token::Minus(_) => {
                match self.try_consume() {
                    Ok(_) => {},
                    Err(error) => {
                        return Err(error);
                    },
                }
                self.try_parse_binary_operation_expression(first_node, token)
            },
            // Any other token ends the expression.
            _ => Ok(first_node),
        }
    }

    /// Parses the right operand of a binary operation and puts the operation together.
    /// The operator token has been taken already.
    fn try_parse_binary_operation_expression(&mut self, first_literal: Node, operand: Token) -> (result:
        Result<Node, ParserError>)
        ensures
            final(self).tokens() == old(self).tokens(),
            final(self).position() >= old(self).position(),
            parsed_view(result, final(self).position()) == parse_binary_operation(
                old(self).tokens(),
                old(self).position(),
                first_literal@,
                operand@,
            ),
        decreases old(self).tokens().len() - old(self).position(), 3int,
    {
        let second_literal = match self.try_parse_expression() {
            Ok(node) => node,
            Err(error) => {
                return Err(error);
            },
        };
        let operator = match operand {
            Token::Plus(_) => BinaryOperator::Plus,
            Token::Minus(_) => BinaryOperator::Minus,
            Token::Asterisk(_) => BinaryOperator::Multiply,
            Token::Slash(_) => BinaryOperator::Divide,
            _ => {
                return Err(ParserError::UnknownToken(operand));
            },
        };
        let binary_operation = BinaryOperationNode {
            left: Box::new(first_literal),
            operator,
            right: Box::new(second_literal),
        };
        Ok(Node::BinaryOperation(binary_operation, operand.location()))
    }

    /// Parses an operand: a literal or a declaration.
    fn try_parse_literal(&mut self) -> (result: Result<Node, ParserError>)
        ensures
            final(self).tokens() == old(self).tokens(),
            final(self).position() >= old(self).position(),
            parsed_view(result, final(self).position()) == parse_operand(
                old(self).tokens(),
                old(self).position(),
            ),
        decreases old(self).tokens().len() - old(self).position(), 1int,
    {
        let token = match self.try_consume() {
            Ok(token) => token,
            Err(error) => {
                return Err(error);
            },
        };
        match token {
            Token::Integer(value, location) => Ok(
                Node::Literal(Literal::Integer(value), location),
            ),
            Token::String(value, location) => Ok(Node::Literal(Literal::String(value), location)),
            Token::Keyword(keyword, location) => match keyword {
                Keyword::Let => self.try_parse_let_expression(location),
            },
            _ => Err(ParserError::UnknownToken(token)),
        }
    }

    /// Parses the rest of a declaration, behind the keyword:
    /// `<identifier> (: <type>)? = <expression>`.
    fn try_parse_let_expression(&mut self, location: Location) -> (result: Result<
        Node,
        ParserError,
    >)
        ensures
            final(self).tokens() == old(self).tokens(),
            final(self).position() >= old(self).position(),
            parsed_view(result, final(self).position()) == parse_let(
                old(self).tokens(),
                old(self).position(),
                location,
            ),
        decreases old(self).tokens().len() - old(self).position(), 5int,
    {
        let name_identifier = match self.try_consume_identifier() {
            Ok(name) => name,
            Err(error) => {
                return Err(error);
            },
        };
        // An equals sign leads to the expression, a colon to the type and then the
        // expression.
        let token = match self.try_consume() {
            Ok(token) => token,
            Err(error) => {
                return Err(error);
            },
        };
        match token {
            Token::Equals(_) => self.try_parse_inferred_let_expression(name_identifier, location),
            Token::Colon(_) => self.try_parse_typed_let_expression(name_identifier, location),
            _ => Err(ParserError::UnexpectedToken(token)),
        }
    }

    /// Parses the expression of a declaration without a type: `let <identifier> =` has
    /// been taken.
    fn try_parse_inferred_let_expression(&mut self, name_identifier: String, location: Location) -> (result:
        Result<Node, ParserError>)
        ensures
            final(self).tokens() == old(self).tokens(),
            final(self).position() >= old(self).position(),
            parsed_view(result, final(self).position()) == parse_let_body(
                old(self).tokens(),
                old(self).position(),
                name_identifier@,
                None,
                location,
            ),
        decreases old(self).tokens().len() - old(self).position(), 3int,
    {
        let expression = match self.try_parse_expression() {
            Ok(node) => node,
            Err(error) => {
                return Err(error);
            },
        };
        let let_operation = LetOperationNode {
            name_identifier,
            type_identifier: None,
            expression: Box::new(expression),
        };
        Ok(Node::LetOperation(let_operation, location))
    }

    /// Parses the rest of a declaration with a type: `let <identifier> :` has been taken,
    /// `<type> = <expression>` follows.
    fn try_parse_typed_let_expression(&mut self, name_identifier: String, location: Location) -> (result:
        Result<Node, ParserError>)
        ensures
            final(self).tokens() == old(self).tokens(),
            final(self).position() >= old(self).position(),
            parsed_view(result, final(self).position()) == parse_typed_let(
                old(self).tokens(),
                old(self).position(),
                name_identifier@,
                location,
            ),
        decreases old(self).tokens().len() - old(self).position(), 4int,
    {
        // The identifier names the type that the expression is to have.
        let type_identifier = match self.try_consume_identifier() {
            Ok(name) => name,
            Err(error) => {
                return Err(error);
            },
        };
        // An equals sign leads to the expression.
        let token = match self.try_consume() {
            Ok(token) => token,
            Err(error) => {
                return Err(error);
            },
        };
        match token {
            Token::Equals(_) => {},
            _ => {
                return Err(ParserError::ExpectedToken("=".to_owned()));
            },
        }
        let expression = match self.try_parse_expression() {
            Ok(node) => node,
            Err(error) => {
                return Err(error);
            },
        };
        let let_operation = LetOperationNode {
            name_identifier,
            type_identifier: Some(type_identifier),
            expression: Box::new(expression),
        };
        Ok(Node::LetOperation(let_operation, location))
    }

    /// Takes the next token, which has to be an identifier, and hands out its name.
    fn try_consume_identifier(&mut self) -> (result: Result<String, ParserError>)
        ensures
            final(self).tokens() == old(self).tokens(),
            match result {
                Ok(name) => {
                    &&& identifier_at(old(self).tokens(), old(self).position()) == Ok::<
                        Seq<char>,
                        ParserErrorView,
                    >(name@)
                    &&& final(self).position() == old(self).position() + 1
                },
                Err(error) => {
                    &&& identifier_at(old(self).tokens(), old(self).position()) == Err::<
                        Seq<char>,
                        ParserErrorView,
                    >(error@)
                    &&& final(self).position() >= old(self).position()
                },
            },
    {
        let token = match self.try_consume() {
            Ok(token) => token,
            Err(error) => {
                return Err(error);
            },
        };
        match token {
            Token::Identifier(value, _) => Ok(value),
            _ => Err(ParserError::UnexpectedToken(token)),
        }
    }

    /// Takes the next token; there has to be one.
    fn try_consume(&mut self) -> (result: Result<Token, ParserError>)
        ensures
            final(self).tokens() == old(self).tokens(),
            match result {
                Ok(token) => {
                    &&& 0 <= old(self).position() < old(self).tokens().len()
                    &&& token@ == old(self).tokens()[old(self).position()]
                    &&& final(self).position() == old(self).position() + 1
                },
                Err(error) => {
                    &&& error@ == ParserErrorView::UnexpectedEOF
                    &&& old(self).position() >= old(self).tokens().len()
                    &&& final(self).position() == old(self).position()
                },
            },
    {
        match self.stream.consume() {
            Some(token) => Ok(token),
            None => Err(ParserError::UnexpectedEOF),
        }
    }

    /// Looks at the next token; there has to be one.
    fn try_peek(&self) -> (result: Result<Token, ParserError>)
        ensures
            match result {
                Ok(token) => {
                    &&& 0 <= self.position() < self.tokens().len()
                    &&& token@ == self.tokens()[self.position()]
                },
                Err(error) => {
                    &&& error@ == ParserErrorView::UnexpectedEOF
                    &&& self.position() >= self.tokens().len()
                },
            },
    {
        match self.stream.peek() {
            Some(token) => Ok(token),
            None => Err(ParserError::UnexpectedEOF),
        }
    }
}

} // verus!
