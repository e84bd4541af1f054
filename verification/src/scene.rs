//! A menu: the list of elements on one screen.
use vstd::prelude::*;

verus! {

/// The elements of one menu screen, in the order they were added.
pub struct Menu<E> {
    elements: Vec<E>,
}

/// The menu type under its other name.
pub type Menue<E> = Menu<E>;

impl<E> Menue<E> {
    /// The elements, in order.
    pub closed spec fn elements(self) -> Seq<E> {
        self.elements@
    }

    /// A menu with no elements.
    pub fn new() -> (m: Self)
        ensures
            m.elements().len() == 0,
    {
        Self { elements: Vec::new() }
    }

    /// A menu with the given elements.
    pub fn from_vec(elements: Vec<E>) -> (m: Self)
        ensures
            m.elements() == elements@,
    {
        Self { elements }
    }

    /// Adds an element after the others.
    pub fn add_item(&mut self, item: E)
        ensures
            final(self).elements() == old(self).elements().push(item),
    {
        self.elements.push(item);
    }

    /// The elements, in order.
    pub fn get_elements(&self) -> (elements: &[E])
        ensures
            elements@ == self.elements(),
    {
        self.elements.as_slice()
    }
}

} // verus!
