use crate::location::Location;
use crate::typechecker::types::Type;
use vstd::prelude::*;
use vstd::string::StringExecFns;

verus! {

/// A finding of the type-checker: a message and the place that it is about.
#[derive(Debug, PartialEq)]
pub struct TypecheckerError {
    pub location: Location,
    pub message: String,
}

/// What a finding is, with its message as a sequence of characters.
pub struct TypecheckerErrorView {
    pub location: Location,
    pub message: Seq<char>,
}

impl View for TypecheckerError {
    type V = TypecheckerErrorView;

    open spec fn view(&self) -> TypecheckerErrorView {
        TypecheckerErrorView { location: self.location, message: self.message@ }
    }
}

impl Clone for TypecheckerError {
    fn clone(&self) -> (copy: TypecheckerError)
        ensures
            copy == *self,
    {
        TypecheckerError { location: self.location, message: self.message.clone() }
    }
}

impl TypecheckerErrorView {
    /// The finding that two types differ where they have to agree.
    pub open spec fn mismatched_types(left: Type, right: Type, location: Location) -> Self {
        TypecheckerErrorView {
            location,
            message: "Mismatched types: "@ + left.name() + " and "@ + right.name(),
        }
    }

    /// The finding that a declaration names a type that does not exist.
    pub open spec fn invalid_type(type_identifier: Seq<char>, location: Location) -> Self {
        TypecheckerErrorView { location, message: "Invalid type: "@ + type_identifier }
    }
}

impl TypecheckerError {
    /// The finding that two types differ where they have to agree.
    pub fn mismatched_types(left: &Type, right: &Type, location: &Location) -> (error: Self)
        ensures
            error@ == TypecheckerErrorView::mismatched_types(*left, *right, *location),
    {
        let mut message = "Mismatched types: ".to_owned();
        message.append(left.to_string().as_str());
        message.append(" and ");
        message.append(right.to_string().as_str());
        Self { location: *location, message }
    }

    /// The finding that a declaration names a type that does not exist.
    pub fn invalid_type(type_identifier: &str, location: &Location) -> (error: Self)
        ensures
            error@ == TypecheckerErrorView::invalid_type(type_identifier@, *location),
    {
        let mut message = "Invalid type: ".to_owned();
        message.append(type_identifier);
        Self { location: *location, message }
    }
}

} // verus!
