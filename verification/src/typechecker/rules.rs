//! The typing rules, as a function from a syntax tree to its type or to the finding that
//! it gives rise to.
//!
//! The rules look at one tree at a time and keep no table of declarations: a reference
//! has the type `Unknown` wherever it stands, and the target of an assignment is not
//! looked at.

use crate::parser::node::{LiteralView, NodeView};
use crate::typechecker::error::TypecheckerErrorView;
use crate::typechecker::types::Type;
use vstd::prelude::*;

verus! {

/// What checking one tree gives: its type, or the first finding on the way.
pub type Checked = Result<Type, TypecheckerErrorView>;

/// The type of a literal.
pub open spec fn literal_type(literal: LiteralView) -> Type {
    match literal {
        LiteralView::Integer(_) => Type::Integer,
        LiteralView::String(_) => Type::String,
    }
}

/// The type of a declaration whose expression has the type `actual`. Without a declared
/// type it is `actual`. A declared type has to exist, else the finding is at the
/// declaration; and it has to be `actual`, else the finding is at the expression.
pub open spec fn declared_type(
    declared: Option<Seq<char>>,
    actual: Type,
    declaration: NodeView,
    expression: NodeView,
) -> Checked {
    match declared {
        None => Ok(actual),
        Some(type_identifier) => match Type::named(type_identifier) {
            Some(resolved) => if resolved != actual {
                Err(
                    TypecheckerErrorView::mismatched_types(
                        resolved,
                        actual,
                        expression.location(),
                    ),
                )
            } else {
                Ok(resolved)
            },
            None => Err(
                TypecheckerErrorView::invalid_type(type_identifier, declaration.location()),
            ),
        },
    }
}

/// The type of a tree, or the first finding that a walk from left to right comes upon.
pub open spec fn type_of(node: NodeView) -> Checked
    decreases node,
{
    match node {
        NodeView::Literal { literal, .. } => Ok(literal_type(literal)),
        NodeView::BinaryOperation { left, right, location, .. } => match type_of(*left) {
            Err(error) => Err(error),
            Ok(left_type) => match type_of(*right) {
                Err(error) => Err(error),
                Ok(right_type) => if left_type != right_type {
                    Err(TypecheckerErrorView::mismatched_types(left_type, right_type, location))
                } else {
                    Ok(left_type)
                },
            },
        },
        NodeView::LetOperation { declared, expression, .. } => match type_of(*expression) {
            Err(error) => Err(error),
            Ok(actual) => declared_type(declared, actual, node, *expression),
        },
        NodeView::AssignmentOperation { expression, .. } => type_of(*expression),
        NodeView::Reference { .. } => Ok(Type::Unknown),
    }
}

/// The findings on a sequence of trees: one for each tree that has none of the types, in
/// the order of the trees.
pub open spec fn errors_of(nodes: Seq<NodeView>) -> Seq<TypecheckerErrorView>
    decreases nodes.len(),
{
    if nodes.len() == 0 {
        Seq::empty()
    } else {
        let before = errors_of(nodes.drop_last());
        match type_of(nodes.last()) {
            Ok(_) => before,
            Err(error) => before.push(error),
        }
    }
}

} // verus!
