use vstd::prelude::*;

verus! {

/// A value at run time. `Nothing` stands for "no meaningful value"; no expression of the
/// language denotes it.
#[derive(Debug, PartialEq)]
pub enum Value {
    String(String),
    Integer(u32),
    Nothing,
}

/// What a value is, with its text as a sequence of characters.
pub enum ValueView {
    String(Seq<char>),
    Integer(u32),
    Nothing,
}

impl ValueView {
    /// The sum of two values: that of two integers, as 32-bit unsigned addition gives it
    /// (modulo 2^32). No other two values have a sum.
    pub open spec fn add(self, other: ValueView) -> Option<ValueView> {
        match (self, other) {
            (ValueView::Integer(left), ValueView::Integer(right)) => Some(
                ValueView::Integer(((left + right) % 0x1_0000_0000) as u32),
            ),
            _ => None,
        }
    }
}

impl View for Value {
    type V = ValueView;

    open spec fn view(&self) -> ValueView {
        match *self {
            Value::String(text) => ValueView::String(text@),
            Value::Integer(value) => ValueView::Integer(value),
            Value::Nothing => ValueView::Nothing,
        }
    }
}

impl Clone for Value {
    fn clone(&self) -> (copy: Value)
        ensures
            copy == *self,
    {
        match self {
            Value::String(text) => Value::String(text.clone()),
            Value::Integer(value) => Value::Integer(*value),
            Value::Nothing => Value::Nothing,
        }
    }
}

impl Value {
    /// Adds two integers. Only two integers can be added.
    pub fn add(&self, other: &Value) -> (sum: Value)
        requires
            self@.add(other@) is Some,
        ensures
            Some(sum@) == self@.add(other@),
    {
        match self {
            Value::Integer(_) => self.add_integers(other),
            _ => unreached(),
        }
    }

    /// Adds two integers as 32-bit unsigned addition does.
    fn add_integers(&self, other: &Value) -> (sum: Value)
        requires
            self@.add(other@) is Some,
        ensures
            Some(sum@) == self@.add(other@),
    {
        match (self, other) {
            (Value::Integer(self_value), Value::Integer(other_value)) => Value::Integer(
                self_value.wrapping_add(*other_value),
            ),
            _ => unreached(),
        }
    }
}

} // verus!
