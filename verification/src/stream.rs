use vstd::prelude::*;

verus! {

/// A cursor over an ordered sequence of elements: it can look at the element under the
/// cursor and it can hand that element out while stepping past it.
///
/// The position is a public field, so the cursor assumes nothing about it: a position at
/// or beyond the end simply means that nothing is left.
pub struct ElementStream<T> {
    elements: Vec<T>,
    pub index: usize,
}

impl<T: Clone> ElementStream<T> {
    /// The sequence that the cursor walks over. No method changes it.
    pub closed spec fn elements(&self) -> Seq<T> {
        self.elements@
    }

    /// The position of the cursor: the number of elements that lie before it.
    pub closed spec fn spec_position(&self) -> usize {
        self.index
    }

    /// The element under the cursor, if the cursor has not run past the end.
    pub open spec fn current(&self) -> Option<T> {
        if self.position() < self.elements().len() {
            Some(self.elements()[self.position() as int])
        } else {
            None
        }
    }

    /// What `peek` and `consume` may hand out when `current` is under the cursor: a clone
    /// of the element where there is one, nothing where there is none.
    pub open spec fn yields(current: Option<T>, handed: Option<T>) -> bool {
        match current {
            Some(element) => handed is Some && cloned(element, handed->0),
            None => handed is None,
        }
    }

    /// Looking does not move the cursor: whatever two looks at one cursor hand out, both
    /// are clones of the element under it, or both are nothing. For elements that are equal
    /// to their clones the two are equal.
    pub proof fn lemma_peek_repeats(self, first: Option<T>, second: Option<T>)
        requires
            Self::yields(self.current(), first),
            Self::yields(self.current(), second),
        ensures
            first is Some <==> second is Some,
            first is Some <==> self.position() < self.elements().len(),
            (forall|element: T, copy: T| cloned(element, copy) ==> copy == element) ==> first
                == second,
    {
        if first is Some {
            let element = self.current()->0;
            assert(cloned(element, first->0));
            assert(cloned(element, second->0));
        }
    }

    /// A cursor at the start of `elements`.
    pub fn new(elements: Vec<T>) -> (stream: Self)
        ensures
            stream.elements() == elements@,
            stream.position() == 0,
    {
        Self { elements, index: 0 }
    }

    /// The position of the cursor.
    #[verifier::when_used_as_spec(spec_position)]
    pub fn position(&self) -> (position: usize)
        ensures
            position == self.position(),
    {
        self.index
    }

    /// Looks at the element under the cursor without moving.
    pub fn peek(&self) -> (element: Option<T>)
        ensures
            Self::yields(self.current(), element),
    {
        if self.index < self.elements.len() {
            Some(self.elements[self.index].clone())
        } else {
            None
        }
    }

    /// Hands out the element under the cursor and steps past it. At or beyond the end
    /// nothing is handed out and the cursor stays where it is.
    pub fn consume(&mut self) -> (element: Option<T>)
        ensures
            Self::yields(old(self).current(), element),
            final(self).elements() == old(self).elements(),
            old(self).current() is Some ==> final(self).position() == old(self).position() + 1,
            old(self).current() is None ==> final(self).position() == old(self).position(),
    {
        let element = self.peek();
        if self.index >= self.elements.len() {
            return None;
        }
        self.index += 1;
        element
    }
}

} // verus!
