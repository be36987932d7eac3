use vstd::prelude::*;

verus! {

/// Builds a fixed-size array one element at a time; the result can be
/// taken out once every slot is filled.
#[derive(Debug)]
pub struct ArrayBuilder<T, const N: usize> {
    elem: Vec<T>,
}

impl<T, const N: usize> ArrayBuilder<T, N> {
    /// The elements pushed so far, in order.
    pub closed spec fn view(&self) -> Seq<T> {
        self.elem@
    }

    pub fn new() -> (r: Self)
        ensures
            r@.len() == 0,
    {
        Self { elem: Vec::new() }
    }

    /// Append one element; the builder never holds more than `N`.
    pub fn push(&mut self, elem: T)
        requires
            old(self)@.len() < N,
        ensures
            final(self)@ == old(self)@.push(elem),
    {
        self.elem.push(elem);
    }

    /// Take the finished array out once full, leaving the builder empty;
    /// `None` while slots are still missing.
    pub fn take(&mut self) -> (r: Option<Vec<T>>)
        ensures
            old(self)@.len() == N ==> (r matches Some(v) && v@ == old(self)@ && final(self)@.len()
                == 0),
            old(self)@.len() != N ==> r is None && final(self)@ == old(self)@,
    {
        if self.elem.len() == N {
            let mut out: Vec<T> = Vec::new();
            core::mem::swap(&mut out, &mut self.elem);
            Some(out)
        } else {
            None
        }
    }
}

} // verus!
