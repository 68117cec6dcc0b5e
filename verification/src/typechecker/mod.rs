pub mod error;
pub mod rules;
pub mod types;

pub use error::{TypecheckerError, TypecheckerErrorView};
pub use types::Type;

use crate::location::Location;
use crate::model::{lemma_views_push, views};
use crate::parser::node::{BinaryOperationNode, LetOperationNode, Literal, Node, NodeView};
use crate::parser::node::text_of;
use crate::stream::ElementStream;
use rules::{declared_type, errors_of, literal_type, type_of, Checked};
use vstd::prelude::*;

verus! {

/// What an attempt to check a tree gave.
pub open spec fn checked_view(result: Result<Type, TypecheckerError>) -> Checked {
    match result {
        Ok(checked) => Ok(checked),
        Err(error) => Err(error@),
    }
}

/// The type-checker: it walks over trees, changes nothing, and collects its findings.
pub struct Typechecker {
    stream: ElementStream<Node>,
}

impl Typechecker {
    /// The trees that the checker has not looked at yet.
    pub closed spec fn pending(&self) -> Seq<NodeView> {
        if self.stream.position() <= self.stream.elements().len() {
            views(self.stream.elements()).skip(self.stream.position() as int)
        } else {
            Seq::empty()
        }
    }

    /// A checker that has all of `nodes` before it.
    pub fn new(nodes: Vec<Node>) -> (checker: Self)
        ensures
            checker.pending() == views(nodes@),
    {
        let checker = Self { stream: ElementStream::new(nodes) };
        assert(checker.pending() == views(nodes@));
        checker
    }

    /// Checks the trees that are left, one after the other, and hands out the findings in
    /// the order of the trees.
    pub fn check(&mut self) -> (errors: Vec<TypecheckerError>)
        ensures
            views(errors@) == errors_of(old(self).pending()),
            final(self).pending() == Seq::<NodeView>::empty(),
    {
        let ghost all = self.pending();
        let ghost mut done: int = 0;
        let mut errors: Vec<TypecheckerError> = Vec::new();
        assert(views(errors@) == errors_of(all.take(0)));
        loop
            invariant
                0 <= done <= all.len(),
                self.pending() == all.skip(done),
                views(errors@) == errors_of(all.take(done)),
            ensures
                done == all.len(),
            decreases all.len() - done,
        {
            let ghost before = self.pending();
            let ghost at = self.stream.position() as int;
            let node = match self.stream.consume() {
                Some(node) => node,
                None => {
                    assert(before.len() == 0);
                    assert(all.skip(done).len() == all.len() - done);
                    break ;
                },
            };
            proof {
                assert(before.len() == self.stream.elements().len() - at);
                assert(all.skip(done).len() == all.len() - done);
                assert(node@ == before[0]);
                assert(before[0] == all[done]);
                assert(self.pending() == before.skip(1));
                assert(all.take(done + 1).drop_last() == all.take(done));
                assert(all.skip(done).skip(1) == all.skip(done + 1));
                done = done + 1;
            }
            let result = Self::typecheck_node(&node);
            if let Err(value) = result {
                proof {
                    lemma_views_push(errors@, value);
                }
                errors.push(value)
            }
        }
        assert(all.take(done) == all);
        errors
    }

    /// The type of a tree, or the first finding in it.
    pub fn typecheck_node(node: &Node) -> (result: Result<Type, TypecheckerError>)
        ensures
            checked_view(result) == type_of(node@),
        decreases node,
    {
        match node {
            Node::Literal(literal, _) => Self::typecheck_literal(literal),
            Node::BinaryOperation(operation, location) => {
                Self::typecheck_binary_operation(operation, location)
            },
            Node::LetOperation(operation, location) => {
                Self::typecheck_let_operation(operation, location)
            },
            Node::AssignmentOperation(operation, _) => {
                Self::typecheck_node(&*operation.expression)
            },
            Node::Reference(_, _) => Ok(Type::Unknown),
        }
    }

    /// Every literal has a type: `<literal>`.
    pub fn typecheck_literal(literal: &Literal) -> (result: Result<Type, TypecheckerError>)
        ensures
            checked_view(result) == Ok::<Type, TypecheckerErrorView>(literal_type(literal@)),
    {
        Ok(
            match literal {
                Literal::Integer(_) => Type::Integer,
                Literal::String(_) => Type::String,
            },
        )
    }

    /// A binary operation has the type of its operands, which have to have the same:
    /// `<left> + <right>`.
    pub fn typecheck_binary_operation(operation: &BinaryOperationNode, location: &Location) -> (result:
        Result<Type, TypecheckerError>)
        ensures
            checked_view(result) == type_of(
                NodeView::BinaryOperation {
                    left: Box::new(operation.left@),
                    operator: operation.operator,
                    right: Box::new(operation.right@),
                    location: *location,
                },
            ),
        decreases operation,
    {
        let left_type = match Self::typecheck_node(&*operation.left) {
            Ok(checked) => checked,
            Err(error) => {
                return Err(error);
            },
        };
        let right_type = match Self::typecheck_node(&*operation.right) {
            Ok(checked) => checked,
            Err(error) => {
                return Err(error);
            },
        };
        if left_type != right_type {
            return Err(TypecheckerError::mismatched_types(&left_type, &right_type, location));
        }
        Ok(left_type)
    }

    /// A declaration has the type of its expression, which has to be the declared type
    /// where one is declared: `let <name>: <type> = <expression>`.
    pub fn typecheck_let_operation(operation: &LetOperationNode, location: &Location) -> (result:
        Result<Type, TypecheckerError>)
        ensures
            checked_view(result) == type_of(
                NodeView::LetOperation {
                    name: operation.name_identifier@,
                    declared: text_of(operation.type_identifier),
                    expression: Box::new(operation.expression@),
                    location: *location,
                },
            ),
        decreases operation,
    {
        let expression = &*operation.expression;
        let expression_type = match Self::typecheck_node(expression) {
            Ok(checked) => checked,
            Err(error) => {
                return Err(error);
            },
        };
        let type_identifier = match &operation.type_identifier {
            Some(type_identifier) => type_identifier,
            None => {
                return Ok(expression_type);
            },
        };
        let declared_type = Type::from_string(type_identifier.as_str());
        match declared_type {
            Some(value) => {
                if value != expression_type {
                    return Err(
                        TypecheckerError::mismatched_types(
                            &value,
                            &expression_type,
                            expression.location(),
                        ),
                    );
                }
                Ok(value)
            },
            None => Err(TypecheckerError::invalid_type(type_identifier.as_str(), location)),
        }
    }
}

} // verus!
