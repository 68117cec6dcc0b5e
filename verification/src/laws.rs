//! What holds of the checker and the interpreter together.

use crate::interpreter::semantics::{evaluate, execute, FatalView, Variables};
use crate::interpreter::value::ValueView;
use crate::location::Location;
use crate::parser::node::{LiteralView, NodeView};
use crate::typechecker::error::TypecheckerErrorView;
use crate::typechecker::rules::{errors_of, type_of};
use crate::typechecker::types::Type;
use vstd::prelude::*;

verus! {

/// An integer literal has the type `Integer` and the value of its number, wherever it
/// stands and whatever the variables are; and it leaves the variables as they were.
pub proof fn lemma_integer_literal(number: u32, location: Location, variables: Variables)
    ensures
        type_of(NodeView::Literal { literal: LiteralView::Integer(number), location }) == Ok::<
            Type,
            TypecheckerErrorView,
        >(Type::Integer),
        evaluate(
            NodeView::Literal { literal: LiteralView::Integer(number), location },
            variables,
        ) == Ok::<_, FatalView>((ValueView::Integer(number), variables)),
{
}

/// An expression of the type `Integer` that has a value has an integer for its value.
pub proof fn lemma_integer_expression(expression: NodeView, variables: Variables)
    requires
        type_of(expression) == Ok::<Type, TypecheckerErrorView>(Type::Integer),
        evaluate(expression, variables) is Ok,
    ensures
        evaluate(expression, variables)->Ok_0.0 is Integer,
    decreases expression,
{
    match expression {
        NodeView::LetOperation { expression: inner, .. } => {
            lemma_integer_expression(*inner, variables);
        },
        NodeView::AssignmentOperation { expression: inner, .. } => {
            lemma_integer_expression(*inner, variables);
        },
        _ => {},
    }
}

/// A declaration of an integer expression, without a declared type or with the declared
/// type `Integer`, gives the checker nothing to find, and after it the name is bound to the
/// value of the expression, an integer; so it is after a program that is this declaration
/// alone. The expression has to have a value: one with a binary operation in it has none.
pub proof fn lemma_integer_declaration(
    name: Seq<char>,
    declared: Option<Seq<char>>,
    expression: NodeView,
    location: Location,
    variables: Variables,
)
    requires
        declared == None::<Seq<char>> || declared == Some("Integer"@),
        type_of(expression) == Ok::<Type, TypecheckerErrorView>(Type::Integer),
        evaluate(expression, variables) is Ok,
    ensures
        ({
            let declaration = NodeView::LetOperation {
                name,
                declared,
                expression: Box::new(expression),
                location,
            };
            let value = evaluate(expression, variables)->Ok_0.0;
            &&& type_of(declaration) == Ok::<Type, TypecheckerErrorView>(Type::Integer)
            &&& errors_of(seq![declaration]) == Seq::<TypecheckerErrorView>::empty()
            &&& evaluate(declaration, variables) matches Ok((result, after))
            &&& result == value
            &&& value is Integer
            &&& after.contains_key(name)
            &&& after[name] == value
            &&& execute(seq![declaration], variables) == Ok::<Variables, FatalView>(after)
        }),
{
    let declaration = NodeView::LetOperation {
        name,
        declared,
        expression: Box::new(expression),
        location,
    };
    lemma_integer_expression(expression, variables);
    assert(seq![declaration].drop_last() == Seq::<NodeView>::empty());
    assert(errors_of(seq![declaration].drop_last()) == Seq::<TypecheckerErrorView>::empty());
    assert(seq![declaration].drop_first() == Seq::<NodeView>::empty());
    assert(seq![declaration].first() == declaration);
    let after = evaluate(declaration, variables)->Ok_0.1;
    assert(execute(Seq::<NodeView>::empty(), after) == Ok::<Variables, FatalView>(after));
}

} // verus!
