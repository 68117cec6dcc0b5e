use caoi::location::Location;
use caoi::parser::{
    AssignmentOperationNode, BinaryOperationNode, BinaryOperator, LetOperationNode, Literal, Node,
    Parser, VariableReference,
};
use caoi::tokenizer::Tokenizer;
use caoi::typechecker::{Type, Typechecker, TypecheckerError};

fn at(line: usize, column: usize) -> Location {
    Location { line, column }
}

fn check(script: &str) -> Vec<TypecheckerError> {
    let tokens = Tokenizer::new(String::from(script)).process();
    let nodes = Parser::new(tokens).try_parse().unwrap();
    Typechecker::new(nodes).check()
}

fn integer(value: u32, column: usize) -> Node {
    Node::Literal(Literal::Integer(value), at(0, column))
}

fn string(value: &str, column: usize) -> Node {
    Node::Literal(Literal::String(String::from(value)), at(0, column))
}

fn binary(left: Node, right: Node) -> BinaryOperationNode {
    BinaryOperationNode { left: Box::new(left), operator: BinaryOperator::Plus, right: Box::new(right) }
}

fn declaration(name: &str, declared: Option<&str>, expression: Node) -> LetOperationNode {
    LetOperationNode {
        name_identifier: String::from(name),
        type_identifier: declared.map(String::from),
        expression: Box::new(expression),
    }
}

fn error(message: &str, line: usize, column: usize) -> TypecheckerError {
    TypecheckerError { location: at(line, column), message: String::from(message) }
}

#[test]
fn integer_literals_are_integers() {
    for value in [0u32, 1, 4, 65536, u32::MAX] {
        assert_eq!(Typechecker::typecheck_node(&integer(value, 0)), Ok(Type::Integer));
        assert_eq!(Typechecker::typecheck_literal(&Literal::Integer(value)), Ok(Type::Integer));
    }
}

#[test]
fn string_literals_are_strings() {
    assert_eq!(Typechecker::typecheck_node(&string("a", 0)), Ok(Type::String));
    assert_eq!(Typechecker::typecheck_literal(&Literal::String(String::new())), Ok(Type::String));
}

#[test]
fn integer_declarations_pass() {
    assert_eq!(check("let x = 1"), vec![]);
    assert_eq!(check("let x: Integer = 1"), vec![]);
    assert_eq!(check("let x: Integer = 1 + 2 * 3"), vec![]);
    assert_eq!(check("let x = let y: Integer = 7"), vec![]);
    assert_eq!(
        Typechecker::typecheck_let_operation(&declaration("x", Some("Integer"), integer(1, 17)), &at(0, 0)),
        Ok(Type::Integer)
    );
    assert_eq!(
        Typechecker::typecheck_let_operation(&declaration("x", None, integer(1, 8)), &at(0, 0)),
        Ok(Type::Integer)
    );
}

#[test]
fn declared_string_with_integer_is_one_mismatch() {
    assert_eq!(
        check("let x: String = 4"),
        vec![error("Mismatched types: String and Integer", 0, 16)]
    );
}

#[test]
fn unknown_type_name_is_one_invalid_type() {
    assert_eq!(check("let x: Qux = 4"), vec![error("Invalid type: Qux", 0, 0)]);
}

#[test]
fn declared_type_wins_over_nothing_else() {
    assert_eq!(
        Typechecker::typecheck_let_operation(&declaration("s", Some("String"), string("a", 16)), &at(0, 0)),
        Ok(Type::String)
    );
    assert_eq!(
        Typechecker::typecheck_let_operation(&declaration("s", Some("Integer"), string("a", 17)), &at(0, 0)),
        Err(error("Mismatched types: Integer and String", 0, 17))
    );
    assert_eq!(
        Typechecker::typecheck_let_operation(&declaration("s", Some("None"), integer(1, 14)), &at(2, 3)),
        Err(error("Invalid type: None", 2, 3))
    );
    assert_eq!(
        Typechecker::typecheck_let_operation(&declaration("s", Some("integer"), integer(1, 14)), &at(0, 0)),
        Err(error("Invalid type: integer", 0, 0))
    );
}

#[test]
fn error_in_the_expression_comes_before_the_declared_type() {
    let inner = Node::LetOperation(declaration("y", Some("Qux"), integer(1, 20)), at(0, 8));
    assert_eq!(
        Typechecker::typecheck_let_operation(&declaration("x", Some("Nope"), inner), &at(0, 0)),
        Err(error("Invalid type: Qux", 0, 8))
    );
}

#[test]
fn operands_have_to_agree() {
    assert_eq!(
        Typechecker::typecheck_binary_operation(&binary(integer(1, 0), integer(2, 4)), &at(0, 2)),
        Ok(Type::Integer)
    );
    assert_eq!(
        Typechecker::typecheck_binary_operation(&binary(string("a", 0), string("b", 6)), &at(0, 4)),
        Ok(Type::String)
    );
    assert_eq!(
        Typechecker::typecheck_binary_operation(&binary(integer(1, 0), string("b", 4)), &at(0, 2)),
        Err(error("Mismatched types: Integer and String", 0, 2))
    );
    assert_eq!(
        Typechecker::typecheck_binary_operation(&binary(string("b", 0), integer(1, 6)), &at(3, 4)),
        Err(error("Mismatched types: String and Integer", 3, 4))
    );
}

#[test]
fn operators_are_not_checked_against_types() {
    let operation = BinaryOperationNode {
        left: Box::new(string("a", 0)),
        operator: BinaryOperator::Multiply,
        right: Box::new(string("b", 6)),
    };
    assert_eq!(Typechecker::typecheck_binary_operation(&operation, &at(0, 4)), Ok(Type::String));
}

#[test]
fn left_operand_is_checked_first() {
    let left = Node::BinaryOperation(binary(integer(1, 0), string("a", 4)), at(0, 2));
    let right = Node::LetOperation(declaration("x", Some("Qux"), integer(1, 20)), at(0, 10));
    assert_eq!(
        Typechecker::typecheck_binary_operation(&binary(left, right), &at(0, 8)),
        Err(error("Mismatched types: Integer and String", 0, 2))
    );
}

#[test]
fn references_have_no_information() {
    let reference = Node::Reference(String::from("never_declared"), at(0, 0));
    assert_eq!(Typechecker::typecheck_node(&reference), Ok(Type::Unknown));
    let reference = Node::Reference(String::from("y"), at(0, 17));
    assert_eq!(
        Typechecker::typecheck_let_operation(&declaration("x", Some("Integer"), reference), &at(0, 0)),
        Err(error("Mismatched types: Integer and None", 0, 17))
    );
}

#[test]
fn assignments_are_checked_on_the_right_only() {
    let assignment = Node::AssignmentOperation(
        AssignmentOperationNode {
            identifier: VariableReference::Typed(String::from("x"), Type::String),
            expression: Box::new(integer(5, 4)),
        },
        at(0, 0),
    );
    assert_eq!(Typechecker::typecheck_node(&assignment), Ok(Type::Integer));
    let assignment = Node::AssignmentOperation(
        AssignmentOperationNode {
            identifier: VariableReference::Unresolved(String::from("x")),
            expression: Box::new(Node::BinaryOperation(binary(integer(1, 4), string("a", 8)), at(0, 6))),
        },
        at(0, 0),
    );
    assert_eq!(
        Typechecker::typecheck_node(&assignment),
        Err(error("Mismatched types: Integer and String", 0, 6))
    );
}

#[test]
fn findings_come_in_the_order_of_the_trees() {
    assert_eq!(
        check("let a: Qux = 1\nlet b = 2\nlet c: String = 3\n1 + 2"),
        vec![error("Invalid type: Qux", 0, 0), error("Mismatched types: String and Integer", 2, 16)]
    );
}

#[test]
fn second_check_finds_nothing_more() {
    let nodes = vec![Node::LetOperation(declaration("x", Some("Qux"), integer(4, 13)), at(0, 0))];
    let mut checker = Typechecker::new(nodes);
    assert_eq!(checker.check().len(), 1);
    assert_eq!(checker.check(), vec![]);
}

#[test]
fn no_trees_no_findings() {
    assert_eq!(Typechecker::new(vec![]).check(), vec![]);
}

#[test]
fn messages_of_findings() {
    assert_eq!(
        TypecheckerError::mismatched_types(&Type::Integer, &Type::Unknown, &at(1, 2)),
        error("Mismatched types: Integer and None", 1, 2)
    );
    assert_eq!(
        TypecheckerError::mismatched_types(&Type::String, &Type::String, &at(0, 0)),
        error("Mismatched types: String and String", 0, 0)
    );
    assert_eq!(TypecheckerError::invalid_type("Qux", &at(3, 4)), error("Invalid type: Qux", 3, 4));
    assert_eq!(TypecheckerError::invalid_type("", &at(0, 0)), error("Invalid type: ", 0, 0));
}

#[test]
fn type_names() {
    assert_eq!(Type::from_string("Integer"), Some(Type::Integer));
    assert_eq!(Type::from_string("String"), Some(Type::String));
    assert_eq!(Type::from_string("None"), None);
    assert_eq!(Type::from_string("Qux"), None);
    assert_eq!(Type::from_string(""), None);
    assert_eq!(Type::from_string("Integer "), None);
    assert_eq!(Type::Integer.to_string(), "Integer");
    assert_eq!(Type::String.to_string(), "String");
    assert_eq!(Type::Unknown.to_string(), "None");
}
