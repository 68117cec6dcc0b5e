pub mod context;
pub mod semantics;
pub mod value;

pub use context::{Context, ContextView};
pub use semantics::FatalView;
pub use value::{Value, ValueView};

use crate::model::views;
use crate::parser::node::{
    AssignmentOperationNode, LetOperationNode, Literal, Node, NodeView, VariableReference,
};
use crate::stream::ElementStream;
use semantics::{evaluate, execute, literal_value, Evaluated, Variables};
use vstd::prelude::*;

verus! {

/// Why a run ended before the end of the program. No run goes on after one of these.
#[derive(Debug, PartialEq)]
pub enum Fatal {
    /// An assignment to a variable that was never declared.
    UnknownVariable(String),
    /// A reference to a variable that was never declared.
    UndeclaredReference(String),
    /// A tree of a kind that has no value.
    UnableToInterpret(Node),
}

impl View for Fatal {
    type V = FatalView;

    open spec fn view(&self) -> FatalView {
        match *self {
            Fatal::UnknownVariable(name) => FatalView::UnknownVariable(name@),
            Fatal::UndeclaredReference(name) => FatalView::UndeclaredReference(name@),
            Fatal::UnableToInterpret(node) => FatalView::UnableToInterpret(node@),
        }
    }
}

/// What an attempt to evaluate a tree gave, beside the variables afterwards.
pub open spec fn evaluated_view(result: Result<Value, Fatal>, variables: Variables) -> Evaluated {
    match result {
        Ok(value) => Ok((value@, variables)),
        Err(fatal) => Err(fatal@),
    }
}

/// What a run gave.
pub open spec fn executed_view(result: Result<Context, Fatal>) -> Result<Variables, FatalView> {
    match result {
        Ok(context) => Ok(context@.variables),
        Err(fatal) => Err(fatal@),
    }
}

/// The interpreter: it walks over the trees of a program and evaluates them in one scope.
pub struct Interpreter {
    stream: ElementStream<Node>,
}

impl Interpreter {
    /// The trees that the interpreter has not evaluated yet.
    pub closed spec fn pending(&self) -> Seq<NodeView> {
        if self.stream.position() <= self.stream.elements().len() {
            views(self.stream.elements()).skip(self.stream.position() as int)
        } else {
            Seq::empty()
        }
    }

    /// An interpreter that has all of `nodes` before it.
    pub fn new(nodes: Vec<Node>) -> (interpreter: Self)
        ensures
            interpreter.pending() == views(nodes@),
    {
        let interpreter = Self { stream: ElementStream::new(nodes) };
        assert(interpreter.pending() == views(nodes@));
        interpreter
    }

    /// Runs the trees that are left in a fresh scope named `Root`, and hands out the scope
    /// as the program leaves it; or the reason for which the run ended early.
    pub fn run(&mut self) -> (result: Result<Context, Fatal>)
        ensures
            executed_view(result) == execute(old(self).pending(), Map::empty()),
            result matches Ok(context) ==> context@.name == "Root"@,
            result is Ok ==> final(self).pending() == Seq::<NodeView>::empty(),
    {
        let ghost all = self.pending();
        let mut context = Context::new("Root");
        loop
            invariant
                all == old(self).pending(),
                context@.name == "Root"@,
                execute(self.pending(), context@.variables) == execute(all, Map::empty()),
            ensures
                self.pending() == Seq::<NodeView>::empty(),
            decreases self.pending().len(),
        {
            let ghost before = self.pending();
            let ghost at = self.stream.position() as int;
            let node = match self.stream.consume() {
                Some(node) => node,
                None => {
                    assert(before.len() == 0);
                    break ;
                },
            };
            proof {
                assert(before.len() == self.stream.elements().len() - at);
                assert(node@ == before.first());
                assert(self.pending() == before.drop_first());
            }
            match self.interpret_node(&node, &mut context) {
                Ok(_) => {},
                Err(fatal) => {
                    return Err(fatal);
                },
            }
        }
        Ok(context)
    }

    /// Evaluates a tree in the scope.
    fn interpret_node(&self, node: &Node, context: &mut Context) -> (result: Result<Value, Fatal>)
        ensures
            final(context)@.name == old(context)@.name,
            evaluated_view(result, final(context)@.variables) == evaluate(
                node@,
                old(context)@.variables,
            ),
            result is Err ==> final(context)@ == old(context)@,
        decreases node,
    {
        match node {
            Node::Literal(value, _) => Ok(self.interpret_literal(value)),
            Node::LetOperation(operation, _) => {
                self.interpret_let_operation(operation, context)
            },
            Node::AssignmentOperation(operation, _) => {
                self.interpret_assignment_operation(operation, context)
            },
            Node::Reference(identifier, _) => match context.get_variable(identifier.as_str()) {
                Some(value) => Ok(value),
                None => Err(Fatal::UndeclaredReference(identifier.clone())),
            },
            _ => Err(Fatal::UnableToInterpret(node.clone())),
        }
    }

    /// The value of a literal.
    fn interpret_literal(&self, literal: &Literal) -> (value: Value)
        ensures
            value@ == literal_value(literal@),
    {
        match literal {
            Literal::String(value) => Value::String(value.clone()),
            Literal::Integer(value) => Value::Integer(*value),
        }
    }

    /// Evaluates the expression of a declaration and binds the name to its value.
    fn interpret_let_operation(&self, operation: &LetOperationNode, context: &mut Context) -> (result:
        Result<Value, Fatal>)
        ensures
            final(context)@.name == old(context)@.name,
            match evaluate(operation.expression@, old(context)@.variables) {
                Ok((value, after)) => {
                    &&& result matches Ok(bound) && bound@ == value
                    &&& final(context)@.variables == after.insert(
                        operation.name_identifier@,
                        value,
                    )
                },
                Err(fatal) => {
                    &&& result matches Err(raised) && raised@ == fatal
                    &&& final(context)@ == old(context)@
                },
            },
        decreases operation,
    {
        let value = match self.interpret_node(&*operation.expression, context) {
            Ok(value) => value,
            Err(fatal) => {
                return Err(fatal);
            },
        };
        context.set_variable(operation.name_identifier.as_str(), value.clone());
        Ok(value)
    }

    /// Evaluates the expression of an assignment and binds the name to its value. The name
    /// has to be bound already.
    fn interpret_assignment_operation(
        &self,
        operation: &AssignmentOperationNode,
        context: &mut Context,
    ) -> (result: Result<Value, Fatal>)
        ensures
            final(context)@.name == old(context)@.name,
            if old(context)@.variables.contains_key(operation.identifier@.name()) {
                match evaluate(operation.expression@, old(context)@.variables) {
                    Ok((value, after)) => {
                        &&& result matches Ok(bound) && bound@ == value
                        &&& final(context)@.variables == after.insert(
                            operation.identifier@.name(),
                            value,
                        )
                    },
                    Err(fatal) => {
                        &&& result matches Err(raised) && raised@ == fatal
                        &&& final(context)@ == old(context)@
                    },
                }
            } else {
                &&& result matches Err(raised) && raised@ == FatalView::UnknownVariable(
                    operation.identifier@.name(),
                )
                &&& final(context)@ == old(context)@
            },
        decreases operation,
    {
        let identifier = match operation.identifier.clone() {
            VariableReference::Unresolved(identifier) => identifier,
            VariableReference::Typed(identifier, _) => identifier,
        };
        if let None = context.get_variable(identifier.as_str()) {
            return Err(Fatal::UnknownVariable(identifier));
        }
        let value = match self.interpret_node(&*operation.expression, context) {
            Ok(value) => value,
            Err(fatal) => {
                return Err(fatal);
            },
        };
        context.set_variable(identifier.as_str(), value.clone());
        Ok(value)
    }
}

} // verus!
