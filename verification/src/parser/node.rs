use crate::location::Location;
use crate::typechecker::types::Type;
use vstd::prelude::*;

verus! {

/// A literal value written in a script.
#[derive(Debug, PartialEq)]
pub enum Literal {
    Integer(u32),
    String(String),
}

/// A node of the syntax tree, with the place in the script that it comes from.
#[derive(Debug, PartialEq)]
pub enum Node {
    Literal(Literal, Location),
    /// A binary operation, such as `1 + 3`.
    BinaryOperation(BinaryOperationNode, Location),
    /// A declaration, such as `let x: Integer = 1`.
    LetOperation(LetOperationNode, Location),
    /// An assignment, such as `x = 5`.
    AssignmentOperation(AssignmentOperationNode, Location),
    /// A reference to a variable.
    Reference(String, Location),
}

/// The target of an assignment: a name, with its type where that has been resolved.
#[derive(Debug, PartialEq)]
pub enum VariableReference {
    Unresolved(String),
    Typed(String, Type),
}

/// The operators of binary operations.
#[derive(Debug, Clone, Copy, PartialEq, Eq, Structural)]
pub enum BinaryOperator {
    Plus,
    Minus,
    Multiply,
    Divide,
}

#[derive(Debug, PartialEq)]
pub struct BinaryOperationNode {
    pub left: Box<Node>,
    pub operator: BinaryOperator,
    pub right: Box<Node>,
}

#[derive(Debug, PartialEq)]
pub struct LetOperationNode {
    pub name_identifier: String,
    pub type_identifier: Option<String>,
    pub expression: Box<Node>,
}

#[derive(Debug, PartialEq)]
pub struct AssignmentOperationNode {
    pub identifier: VariableReference,
    pub expression: Box<Node>,
}

/// What a literal is, with its text as a sequence of characters.
pub enum LiteralView {
    Integer(u32),
    String(Seq<char>),
}

/// What the target of an assignment is, with its name as a sequence of characters.
pub enum VariableReferenceView {
    Unresolved(Seq<char>),
    Typed(Seq<char>, Type),
}

impl VariableReferenceView {
    /// The name of the variable.
    pub open spec fn name(self) -> Seq<char> {
        match self {
            VariableReferenceView::Unresolved(name) => name,
            VariableReferenceView::Typed(name, _) => name,
        }
    }
}

/// What a node is: the tree itself, with every text as a sequence of characters.
pub enum NodeView {
    Literal { literal: LiteralView, location: Location },
    BinaryOperation {
        left: Box<NodeView>,
        operator: BinaryOperator,
        right: Box<NodeView>,
        location: Location,
    },
    LetOperation {
        name: Seq<char>,
        declared: Option<Seq<char>>,
        expression: Box<NodeView>,
        location: Location,
    },
    AssignmentOperation {
        target: VariableReferenceView,
        expression: Box<NodeView>,
        location: Location,
    },
    Reference { name: Seq<char>, location: Location },
}

impl NodeView {
    /// The place in the script that the node comes from.
    pub open spec fn location(self) -> Location {
        match self {
            NodeView::Literal { location, .. } => location,
            NodeView::BinaryOperation { location, .. } => location,
            NodeView::LetOperation { location, .. } => location,
            NodeView::AssignmentOperation { location, .. } => location,
            NodeView::Reference { location, .. } => location,
        }
    }
}

impl View for Literal {
    type V = LiteralView;

    open spec fn view(&self) -> LiteralView {
        match *self {
            Literal::Integer(value) => LiteralView::Integer(value),
            Literal::String(text) => LiteralView::String(text@),
        }
    }
}

impl View for VariableReference {
    type V = VariableReferenceView;

    open spec fn view(&self) -> VariableReferenceView {
        match *self {
            VariableReference::Unresolved(name) => VariableReferenceView::Unresolved(name@),
            VariableReference::Typed(name, resolved) => VariableReferenceView::Typed(
                name@,
                resolved,
            ),
        }
    }
}

/// The text of an optional string.
pub open spec fn text_of(text: Option<String>) -> Option<Seq<char>> {
    match text {
        Some(text) => Some(text@),
        None => None,
    }
}

impl Node {
    /// The tree of the node, with every text as a sequence of characters. This is the
    /// node's view.
    pub open spec fn tree(self) -> NodeView
        decreases self,
    {
        match self {
            Node::Literal(literal, location) => NodeView::Literal { literal: literal@, location },
            Node::BinaryOperation(operation, location) => NodeView::BinaryOperation {
                left: Box::new((*operation.left).tree()),
                operator: operation.operator,
                right: Box::new((*operation.right).tree()),
                location,
            },
            Node::LetOperation(operation, location) => NodeView::LetOperation {
                name: operation.name_identifier@,
                declared: text_of(operation.type_identifier),
                expression: Box::new((*operation.expression).tree()),
                location,
            },
            Node::AssignmentOperation(operation, location) => NodeView::AssignmentOperation {
                target: operation.identifier@,
                expression: Box::new((*operation.expression).tree()),
                location,
            },
            Node::Reference(name, location) => NodeView::Reference { name: name@, location },
        }
    }
}

impl View for Node {
    type V = NodeView;

    open spec fn view(&self) -> NodeView {
        self.tree()
    }
}

impl Clone for Literal {
    fn clone(&self) -> (copy: Literal)
        ensures
            copy == *self,
    {
        match self {
            Literal::Integer(value) => Literal::Integer(*value),
            Literal::String(text) => Literal::String(text.clone()),
        }
    }
}

impl Clone for VariableReference {
    fn clone(&self) -> (copy: VariableReference)
        ensures
            copy == *self,
    {
        match self {
            VariableReference::Unresolved(name) => VariableReference::Unresolved(name.clone()),
            VariableReference::Typed(name, resolved) => VariableReference::Typed(
                name.clone(),
                *resolved,
            ),
        }
    }
}

impl Clone for Node {
    fn clone(&self) -> (copy: Node)
        ensures
            copy == *self,
        decreases self,
    {
        match self {
            Node::Literal(literal, location) => Node::Literal(literal.clone(), *location),
            Node::BinaryOperation(operation, location) => Node::BinaryOperation(
                BinaryOperationNode {
                    left: Box::new((*operation.left).clone()),
                    operator: operation.operator,
                    right: Box::new((*operation.right).clone()),
                },
                *location,
            ),
            Node::LetOperation(operation, location) => Node::LetOperation(
                LetOperationNode {
                    name_identifier: operation.name_identifier.clone(),
                    type_identifier: match &operation.type_identifier {
                        Some(name) => Some(name.clone()),
                        None => None,
                    },
                    expression: Box::new((*operation.expression).clone()),
                },
                *location,
            ),
            Node::AssignmentOperation(operation, location) => Node::AssignmentOperation(
                AssignmentOperationNode {
                    identifier: operation.identifier.clone(),
                    expression: Box::new((*operation.expression).clone()),
                },
                *location,
            ),
            Node::Reference(name, location) => Node::Reference(name.clone(), *location),
        }
    }
}

impl Node {
    /// The place in the script that the node comes from.
    pub fn location(&self) -> (location: &Location)
        ensures
            *location == self@.location(),
    {
        match self {
            Node::Literal(_, location) => location,
            Node::BinaryOperation(_, location) => location,
            Node::LetOperation(_, location) => location,
            Node::AssignmentOperation(_, location) => location,
            Node::Reference(_, location) => location,
        }
    }
}

} // verus!
