//! What a program does, as a function from a syntax tree and the variables before it to
//! the value of the tree and the variables after it.
//!
//! Only literals, declarations, assignments and references have a value. Anything else,
//! binary operations among it, ends the run.

use crate::interpreter::value::ValueView;
use crate::parser::node::{LiteralView, NodeView};
use vstd::prelude::*;

verus! {

/// The variables of a program, each with its value.
pub type Variables = Map<Seq<char>, ValueView>;

/// Why a run ended before the end of the program.
pub enum FatalView {
    /// An assignment to a variable that was never declared.
    UnknownVariable(Seq<char>),
    /// A reference to a variable that was never declared.
    UndeclaredReference(Seq<char>),
    /// A tree of a kind that has no value.
    UnableToInterpret(NodeView),
}

/// What evaluating one tree gives: its value and the variables afterwards, or the reason
/// for which the run ends.
pub type Evaluated = Result<(ValueView, Variables), FatalView>;

/// The value of a literal.
pub open spec fn literal_value(literal: LiteralView) -> ValueView {
    match literal {
        LiteralView::Integer(value) => ValueView::Integer(value),
        LiteralView::String(text) => ValueView::String(text),
    }
}

/// The value of a tree and the variables after it.
///
/// A declaration binds its name to the value of its expression, whether or not the name
/// was bound, and has that value. An assignment does the same, but only for a name that is
/// bound before its expression is evaluated. A reference has the value of its name.
pub open spec fn evaluate(node: NodeView, variables: Variables) -> Evaluated
    decreases node,
{
    match node {
        NodeView::Literal { literal, .. } => Ok((literal_value(literal), variables)),
        NodeView::LetOperation { name, expression, .. } => match evaluate(
            *expression,
            variables,
        ) {
            Ok((value, after)) => Ok((value, after.insert(name, value))),
            Err(fatal) => Err(fatal),
        },
        NodeView::AssignmentOperation { target, expression, .. } => if variables.contains_key(
            target.name(),
        ) {
            match evaluate(*expression, variables) {
                Ok((value, after)) => Ok((value, after.insert(target.name(), value))),
                Err(fatal) => Err(fatal),
            }
        } else {
            Err(FatalView::UnknownVariable(target.name()))
        },
        NodeView::Reference { name, .. } => if variables.contains_key(name) {
            Ok((variables[name], variables))
        } else {
            Err(FatalView::UndeclaredReference(name))
        },
        NodeView::BinaryOperation { .. } => Err(FatalView::UnableToInterpret(node)),
    }
}

/// The variables after a program that starts with the given ones, or the reason for which
/// its run ends at the first tree that has no value.
pub open spec fn execute(nodes: Seq<NodeView>, variables: Variables) -> Result<
    Variables,
    FatalView,
>
    decreases nodes.len(),
{
    if nodes.len() == 0 {
        Ok(variables)
    } else {
        match evaluate(nodes.first(), variables) {
            Ok((_, after)) => execute(nodes.drop_first(), after),
            Err(fatal) => Err(fatal),
        }
    }
}

} // verus!
