use crate::interpreter::value::{Value, ValueView};
use crate::text::text_eq;
use vstd::prelude::*;

verus! {

/// One variable with its current value.
#[derive(Debug)]
struct Binding {
    name: String,
    value: Value,
}

/// The map that a list of bindings stands for: each name with the value bound to it.
spec fn bound(bindings: Seq<Binding>) -> Map<Seq<char>, ValueView>
    decreases bindings.len(),
{
    if bindings.len() == 0 {
        Map::empty()
    } else {
        bound(bindings.drop_last()).insert(bindings.last().name@, bindings.last().value@)
    }
}

/// No name is bound twice.
spec fn distinct(bindings: Seq<Binding>) -> bool {
    forall|i: int, j: int|
        0 <= i < j < bindings.len() ==> (#[trigger] bindings[i]).name@ != (
        #[trigger] bindings[j]).name@
}

/// Whether the binding at `index` is that of `name`.
spec fn binds(bindings: Seq<Binding>, index: int, name: Seq<char>) -> bool {
    0 <= index < bindings.len() && bindings[index].name@ == name
}

/// The names of the map are those of the list, and each has the value of its binding.
proof fn lemma_bound(bindings: Seq<Binding>)
    requires
        distinct(bindings),
    ensures
        forall|name: Seq<char>|
            bound(bindings).contains_key(name) <==> exists|i: int| binds(bindings, i, name),
        forall|i: int|
            0 <= i < bindings.len() ==> bound(bindings)[(#[trigger] bindings[i]).name@]
                == bindings[i].value@,
    decreases bindings.len(),
{
    if bindings.len() > 0 {
        let before = bindings.drop_last();
        let last = bindings.len() - 1;
        assert forall|i: int, j: int| 0 <= i < j < before.len() implies (
        #[trigger] before[i]).name@ != (#[trigger] before[j]).name@ by {
            assert(before[i] == bindings[i]);
            assert(before[j] == bindings[j]);
        }
        lemma_bound(before);
        assert forall|name: Seq<char>|
            bound(bindings).contains_key(name) <==> exists|i: int|
                binds(bindings, i, name) by {
            if bound(bindings).contains_key(name) {
                if name == bindings[last].name@ {
                    assert(binds(bindings, last, name));
                } else {
                    assert(bound(before).contains_key(name));
                    let i = choose|i: int| binds(before, i, name);
                    assert(before[i] == bindings[i]);
                    assert(binds(bindings, i, name));
                }
            }
            if exists|i: int| binds(bindings, i, name) {
                let i = choose|i: int| binds(bindings, i, name);
                if i < last {
                    assert(before[i] == bindings[i]);
                    assert(binds(before, i, name));
                }
            }
        }
        assert forall|i: int| 0 <= i < bindings.len() implies bound(bindings)[(
        #[trigger] bindings[i]).name@] == bindings[i].value@ by {
            if i < last {
                assert(before[i] == bindings[i]);
                assert(bindings[i].name@ != bindings[last].name@);
            }
        }
    } else {
        assert forall|name: Seq<char>|
            bound(bindings).contains_key(name) <==> exists|i: int|
                binds(bindings, i, name) by {
        }
    }
}

/// The scope in which a program runs: a name for the scope, and the variables with their
/// current values. The language has one flat scope.
#[derive(Debug)]
pub struct Context {
    name: String,
    variables: Vec<Binding>,
}

/// What a scope is: its name, and the map from the names of its variables to their values.
pub struct ContextView {
    pub name: Seq<char>,
    pub variables: Map<Seq<char>, ValueView>,
}

impl View for Context {
    type V = ContextView;

    closed spec fn view(&self) -> ContextView {
        ContextView { name: self.name@, variables: bound(self.variables@) }
    }
}

impl Context {
    #[verifier::type_invariant]
    spec fn well_formed(&self) -> bool {
        distinct(self.variables@)
    }

    /// An empty scope with the given name.
    pub fn new(name: &str) -> (context: Self)
        ensures
            context@.name == name@,
            context@.variables == Map::<Seq<char>, ValueView>::empty(),
    {
        Self { name: name.to_owned(), variables: Vec::new() }
    }

    /// The name of the scope.
    pub fn name(&self) -> (name: &str)
        ensures
            name@ == self@.name,
    {
        self.name.as_str()
    }

    /// The names of the variables, each once.
    pub fn variable_names(&self) -> (names: Vec<String>)
        ensures
            forall|i: int| 0 <= i < names@.len() ==> self@.variables.contains_key(#[trigger] names@[i]@),
            forall|name: Seq<char>| self@.variables.contains_key(name) ==> exists|i: int|
                0 <= i < names@.len() && #[trigger] names@[i]@ == name,
            forall|i: int, j: int|
                0 <= i < j < names@.len() ==> #[trigger] names@[i]@ != #[trigger] names@[j]@,
    {
        proof {
            use_type_invariant(self);
            lemma_bound(self.variables@);
        }
        let mut names: Vec<String> = Vec::new();
        let mut index: usize = 0;
        while index < self.variables.len()
            invariant
                index <= self.variables@.len(),
                names@.len() == index,
                forall|i: int| 0 <= i < index ==> #[trigger] names@[i]@ == self.variables@[i].name@,
            decreases self.variables@.len() - index,
        {
            names.push(self.variables[index].name.clone());
            index += 1;
        }
        assert forall|i: int| 0 <= i < names@.len() implies self@.variables.contains_key(
            #[trigger] names@[i]@,
        ) by {
            assert(binds(self.variables@, i, names@[i]@));
        }
        assert forall|name: Seq<char>| self@.variables.contains_key(name) implies exists|i: int|
            0 <= i < names@.len() && #[trigger] names@[i]@ == name by {
            let i = choose|i: int| binds(self.variables@, i, name);
            assert(names@[i]@ == name);
        }
        assert forall|i: int, j: int| 0 <= i < j < names@.len() implies #[trigger] names@[i]@
            != #[trigger] names@[j]@ by {
            assert(self.variables@[i].name@ != self.variables@[j].name@);
        }
        names
    }

    /// The place of the binding of `name` in the list, if the name is bound.
    fn find(&self, name: &str) -> (place: Option<usize>)
        ensures
            match place {
                Some(index) => index < self.variables@.len() && self.variables@[index as int].name@
                    == name@,
                None => !self@.variables.contains_key(name@),
            },
    {
        proof {
            use_type_invariant(self);
            lemma_bound(self.variables@);
        }
        let mut index: usize = 0;
        assert(forall|i: int| binds(self.variables@, i, name@) ==> i >= index);
        while index < self.variables.len()
            invariant
                index <= self.variables@.len(),
                forall|i: int| binds(self.variables@, i, name@) ==> i >= index,
            decreases self.variables@.len() - index,
        {
            if text_eq(self.variables[index].name.as_str(), name) {
                return Some(index);
            }
            index += 1;
        }
        None
    }

    /// Binds `name` to `value`, whether or not the name was bound before.
    pub fn set_variable(&mut self, name: &str, value: Value)
        ensures
            final(self)@.name == old(self)@.name,
            final(self)@.variables == old(self)@.variables.insert(name@, value@),
    {
        proof {
            use_type_invariant(&*self);
            lemma_bound(self.variables@);
        }
        let place = self.find(name);
        let mut variables: Vec<Binding> = Vec::new();
        std::mem::swap(&mut variables, &mut self.variables);
        let ghost before = variables@;
        let binding = Binding { name: name.to_owned(), value };
        match place {
            Some(index) => {
                variables.set(index, binding);
                proof {
                    assert(distinct(variables@)) by {
                        assert forall|i: int, j: int| 0 <= i < j < variables@.len() implies (
                        #[trigger] variables@[i]).name@ != (#[trigger] variables@[j]).name@ by {
                            assert(variables@[i].name@ == before[i].name@);
                            assert(variables@[j].name@ == before[j].name@);
                        }
                    }
                    lemma_bound(variables@);
                    let updated = bound(before).insert(name@, value@);
                    assert forall|key: Seq<char>| bound(variables@).contains_key(key)
                        <==> updated.contains_key(key) by {
                        if bound(variables@).contains_key(key) {
                            let i = choose|i: int| binds(variables@, i, key);
                            assert(binds(before, i, key));
                        }
                        if bound(before).contains_key(key) {
                            let i = choose|i: int| binds(before, i, key);
                            assert(binds(variables@, i, key));
                        }
                        if key == name@ {
                            assert(binds(variables@, index as int, key));
                        }
                    }
                    assert forall|key: Seq<char>| bound(variables@).contains_key(key) implies bound(
                        variables@,
                    )[key] == updated[key] by {
                        let i = choose|i: int| binds(variables@, i, key);
                        if i != index {
                            assert(variables@[i] == before[i]);
                            assert(before[i].name@ != before[index as int].name@);
                        }
                    }
                    assert(bound(variables@) =~= updated);
                }
            },
            None => {
                variables.push(binding);
                proof {
                    assert(variables@.drop_last() == before);
                    assert(distinct(variables@)) by {
                        assert forall|i: int, j: int| 0 <= i < j < variables@.len() implies (
                        #[trigger] variables@[i]).name@ != (#[trigger] variables@[j]).name@ by {
                            if j < before.len() {
                                assert(variables@[i] == before[i]);
                                assert(variables@[j] == before[j]);
                            } else {
                                assert(variables@[i] == before[i]);
                                assert(binds(before, i, before[i].name@));
                            }
                        }
                    }
                }
            },
        }
        self.variables = variables;
    }

    /// The value bound to `name`, if the name is bound.
    pub fn get_variable(&self, name: &str) -> (value: Option<Value>)
        ensures
            match value {
                Some(value) => self@.variables.contains_key(name@) && value@
                    == self@.variables[name@],
                None => !self@.variables.contains_key(name@),
            },
    {
        proof {
            use_type_invariant(self);
            lemma_bound(self.variables@);
        }
        match self.find(name) {
            Some(index) => {
                assert(binds(self.variables@, index as int, name@));
                Some(self.variables[index].value.clone())
            },
            None => None,
        }
    }
}

} // verus!
