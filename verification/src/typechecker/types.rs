use crate::text::text_eq;
use vstd::prelude::*;

verus! {

/// The types of the language. `Unknown` stands for "no information": it is what a
/// reference to a variable gets, it is shown as `None`, and no declaration can name it.
#[derive(Debug, Clone, Copy, PartialEq, Eq, Structural)]
pub enum Type {
    Integer,
    String,
    Unknown,
}

impl Type {
    /// The name under which the type is shown.
    pub open spec fn name(self) -> Seq<char> {
        match self {
            Type::Integer => "Integer"@,
            Type::String => "String"@,
            Type::Unknown => "None"@,
        }
    }

    /// The type that a declaration names by `name`, if it names one.
    pub open spec fn named(name: Seq<char>) -> Option<Type> {
        if name == "Integer"@ {
            Some(Type::Integer)
        } else if name == "String"@ {
            Some(Type::String)
        } else {
            None
        }
    }

    /// Resolves the name of a type as written in a declaration.
    pub fn from_string(string: &str) -> (resolved: Option<Self>)
        ensures
            resolved == Self::named(string@),
    {
        if text_eq(string, "Integer") {
            Some(Type::Integer)
        } else if text_eq(string, "String") {
            Some(Type::String)
        } else {
            None
        }
    }

    /// The name under which the type is shown.
    pub fn to_string(&self) -> (name: String)
        ensures
            name@ == self.name(),
    {
        match self {
            Type::Integer => "Integer".to_owned(),
            Type::String => "String".to_owned(),
            Type::Unknown => "None".to_owned(),
        }
    }
}

} // verus!
