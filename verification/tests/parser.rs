use caoi::location::Location;
use caoi::parser::{
    BinaryOperationNode, BinaryOperator, LetOperationNode, Literal, Node, Parser, ParserError,
};
use caoi::tokenizer::{Keyword, Token, Tokenizer};

fn at(line: usize, column: usize) -> Location {
    Location { line, column }
}

fn parse(script: &str) -> Result<Vec<Node>, ParserError> {
    let tokens = Tokenizer::new(String::from(script)).process();
    Parser::new(tokens).try_parse()
}

fn integer(value: u32, column: usize) -> Node {
    Node::Literal(Literal::Integer(value), at(0, column))
}

fn binary(left: Node, operator: BinaryOperator, right: Node, column: usize) -> Node {
    Node::BinaryOperation(
        BinaryOperationNode { left: Box::new(left), operator, right: Box::new(right) },
        at(0, column),
    )
}

fn declaration(name: &str, declared: Option<&str>, expression: Node, column: usize) -> Node {
    Node::LetOperation(
        LetOperationNode {
            name_identifier: String::from(name),
            type_identifier: declared.map(String::from),
            expression: Box::new(expression),
        },
        at(0, column),
    )
}

#[test]
fn round_trip_of_a_declaration() {
    let nodes = parse("let x = 1").unwrap();
    assert_eq!(nodes.len(), 1);
    match &nodes[0] {
        Node::LetOperation(operation, location) => {
            assert_eq!(operation.name_identifier, "x");
            assert_eq!(operation.type_identifier, None);
            assert_eq!(*operation.expression, Node::Literal(Literal::Integer(1), at(0, 8)));
            assert_eq!(*location, at(0, 0));
        }
        other => panic!("not a declaration: {:?}", other),
    }
}

#[test]
fn parses_a_typed_declaration() {
    assert_eq!(
        parse("let x: Integer = 1"),
        Ok(vec![declaration("x", Some("Integer"), integer(1, 17), 0)])
    );
}

#[test]
fn type_names_are_not_resolved_by_the_parser() {
    assert_eq!(parse("let x: Qux = 4"), Ok(vec![declaration("x", Some("Qux"), integer(4, 13), 0)]));
}

#[test]
fn parses_literals() {
    assert_eq!(parse("7"), Ok(vec![integer(7, 0)]));
    assert_eq!(
        parse("\"text"),
        Ok(vec![Node::Literal(Literal::String(String::from("text")), at(0, 0))])
    );
}

#[test]
fn operators_bind_to_the_right() {
    assert_eq!(
        parse("1 - 2 - 3"),
        Ok(vec![binary(
            integer(1, 0),
            BinaryOperator::Minus,
            binary(integer(2, 4), BinaryOperator::Minus, integer(3, 8), 6),
            2
        )])
    );
}

#[test]
fn operators_have_no_precedence() {
    assert_eq!(
        parse("1 * 2 + 3"),
        Ok(vec![binary(
            integer(1, 0),
            BinaryOperator::Multiply,
            binary(integer(2, 4), BinaryOperator::Plus, integer(3, 8), 6),
            2
        )])
    );
    assert_eq!(
        parse("8 / 2"),
        Ok(vec![binary(integer(8, 0), BinaryOperator::Divide, integer(2, 4), 2)])
    );
}

#[test]
fn declaration_takes_the_whole_expression() {
    assert_eq!(
        parse("let x = 1 + 2"),
        Ok(vec![declaration(
            "x",
            None,
            binary(integer(1, 8), BinaryOperator::Plus, integer(2, 12), 10),
            0
        )])
    );
}

#[test]
fn declaration_may_be_an_operand() {
    assert_eq!(
        parse("1 + let x = 2"),
        Ok(vec![binary(
            integer(1, 0),
            BinaryOperator::Plus,
            declaration("x", None, integer(2, 12), 4),
            2
        )])
    );
    assert_eq!(
        parse("let x = let y = 2"),
        Ok(vec![declaration("x", None, declaration("y", None, integer(2, 16), 8), 0)])
    );
}

#[test]
fn parses_expressions_one_after_the_other() {
    assert_eq!(
        parse("let x = 1\n2 3"),
        Ok(vec![
            declaration("x", None, integer(1, 8), 0),
            Node::Literal(Literal::Integer(2), at(1, 0)),
            Node::Literal(Literal::Integer(3), at(1, 2)),
        ])
    );
}

#[test]
fn empty_program_has_no_nodes() {
    assert_eq!(parse(""), Ok(vec![]));
    assert_eq!(Parser::new(vec![]).try_parse(), Ok(vec![]));
}

#[test]
fn parsing_stops_at_the_end_marker() {
    let tokens = vec![
        Token::Integer(1, at(0, 0)),
        Token::EndOfFile(at(0, 1)),
        Token::Integer(2, at(0, 2)),
    ];
    let mut parser = Parser::new(tokens);
    assert_eq!(parser.try_parse(), Ok(vec![integer(1, 0)]));
    assert_eq!(parser.try_parse(), Ok(vec![]));
}

#[test]
fn tokens_may_run_out_without_an_end_marker() {
    let tokens = vec![Token::Integer(1, at(0, 0)), Token::Plus(at(0, 1)), Token::Integer(2, at(0, 2))];
    assert_eq!(
        Parser::new(tokens).try_parse(),
        Ok(vec![binary(integer(1, 0), BinaryOperator::Plus, integer(2, 2), 1)])
    );
}

#[test]
fn unexpected_end_of_the_tokens() {
    assert_eq!(
        Parser::new(vec![Token::Keyword(Keyword::Let, at(0, 0))]).try_parse(),
        Err(ParserError::UnexpectedEOF)
    );
    let tokens = vec![
        Token::Keyword(Keyword::Let, at(0, 0)),
        Token::Identifier(String::from("x"), at(0, 4)),
    ];
    assert_eq!(Parser::new(tokens).try_parse(), Err(ParserError::UnexpectedEOF));
    let tokens = vec![Token::Integer(1, at(0, 0)), Token::Plus(at(0, 1))];
    assert_eq!(Parser::new(tokens).try_parse(), Err(ParserError::UnexpectedEOF));
    let tokens = vec![
        Token::Keyword(Keyword::Let, at(0, 0)),
        Token::Identifier(String::from("x"), at(0, 4)),
        Token::Colon(at(0, 5)),
        Token::Identifier(String::from("Integer"), at(0, 7)),
    ];
    assert_eq!(Parser::new(tokens).try_parse(), Err(ParserError::UnexpectedEOF));
}

#[test]
fn unknown_token_where_an_operand_has_to_start() {
    assert_eq!(parse("= 1"), Err(ParserError::UnknownToken(Token::Equals(at(0, 0)))));
    assert_eq!(
        parse("x"),
        Err(ParserError::UnknownToken(Token::Identifier(String::from("x"), at(0, 0))))
    );
    assert_eq!(parse("1 +"), Err(ParserError::UnknownToken(Token::EndOfFile(at(0, 3)))));
    assert_eq!(parse("1 + *"), Err(ParserError::UnknownToken(Token::Asterisk(at(0, 4)))));
}

#[test]
fn assignment_is_not_in_the_grammar() {
    assert_eq!(
        parse("x = 5"),
        Err(ParserError::UnknownToken(Token::Identifier(String::from("x"), at(0, 0))))
    );
}

#[test]
fn unexpected_token_in_a_declaration() {
    assert_eq!(parse("let 1"), Err(ParserError::UnexpectedToken(Token::Integer(1, at(0, 4)))));
    assert_eq!(parse("let x 1"), Err(ParserError::UnexpectedToken(Token::Integer(1, at(0, 6)))));
    assert_eq!(parse("let"), Err(ParserError::UnexpectedToken(Token::EndOfFile(at(0, 3)))));
    assert_eq!(parse("let x: = 1"), Err(ParserError::UnexpectedToken(Token::Equals(at(0, 7)))));
}

#[test]
fn expected_equals_behind_the_type() {
    assert_eq!(parse("let x: Integer 1"), Err(ParserError::ExpectedToken(String::from("="))));
    assert_eq!(parse("let x: Integer"), Err(ParserError::ExpectedToken(String::from("="))));
}

#[test]
fn first_error_ends_the_parse() {
    assert_eq!(parse("let x = 1\n= 2\nlet"), Err(ParserError::UnknownToken(Token::Equals(at(1, 0)))));
}

#[test]
fn node_location() {
    assert_eq!(*integer(1, 5).location(), at(0, 5));
    assert_eq!(*binary(integer(1, 0), BinaryOperator::Plus, integer(2, 4), 2).location(), at(0, 2));
    assert_eq!(*declaration("x", None, integer(1, 8), 3).location(), at(0, 3));
    assert_eq!(*Node::Reference(String::from("x"), at(4, 2)).location(), at(4, 2));
}

#[test]
fn node_clone_is_equal() {
    let node = declaration(
        "x",
        Some("Integer"),
        binary(integer(1, 17), BinaryOperator::Plus, integer(2, 21), 19),
        0,
    );
    assert_eq!(node.clone(), node);
}
