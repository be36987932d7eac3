use vstd::prelude::*;

verus! {

/// The link record of one list node: the positions of its neighbours, by
/// handle, or `None` at either end.
#[derive(Clone, Copy, PartialEq, Eq, Structural, Debug)]
pub struct Pointers {
    pub prev: Option<usize>,
    pub next: Option<usize>,
}

impl Pointers {
    pub fn new() -> (r: Self)
        ensures
            r.prev is None,
            r.next is None,
    {
        Self { prev: None, next: None }
    }
}

/// A doubly-ended list of owned elements, front first.
#[derive(Debug)]
pub struct LinkedList<T> {
    items: Vec<T>,
}

impl<T> LinkedList<T> {
    /// The elements, front first.
    pub closed spec fn view(&self) -> Seq<T> {
        self.items@
    }

    pub fn new() -> (r: Self)
        ensures
            r@.len() == 0,
    {
        Self { items: Vec::new() }
    }

    /// Put an element at the front.
    pub fn push_front(&mut self, val: T)
        ensures
            final(self)@ =~= seq![val] + old(self)@,
    {
        self.items.insert(0, val);
    }

    /// Take the front element out, if there is one.
    pub fn pop_front(&mut self) -> (r: Option<T>)
        ensures
            old(self)@.len() == 0 ==> r is None && final(self)@ == old(self)@,
            old(self)@.len() > 0 ==> (r matches Some(v) && v == old(self)@[0]) && final(self)@
                =~= old(self)@.drop_first(),
    {
        if self.items.len() == 0 {
            None
        } else {
            Some(self.items.remove(0))
        }
    }

    /// The number of elements.
    pub fn len(&self) -> (r: usize)
        ensures
            r == self@.len(),
    {
        self.items.len()
    }
}

} // verus!
