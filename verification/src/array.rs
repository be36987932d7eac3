use vstd::prelude::*;

verus! {

/// A push onto a full array hands the rejected element back.
#[derive(Debug)]
pub struct ArrayPushError<T>(pub T);

/// The array was finalized before every slot was filled.
#[derive(Debug)]
pub struct ArrayNotFull(());

/// A fixed-capacity array filled one element at a time.
#[derive(Debug)]
pub struct Array<T, const N: usize> {
    inner: Vec<T>,
}

impl<T, const N: usize> Array<T, N> {
    /// The elements pushed so far, in order.
    pub closed spec fn view(&self) -> Seq<T> {
        self.inner@
    }

    /// At most `N` elements ever fit.
    pub closed spec fn wf(&self) -> bool {
        self.inner@.len() <= N
    }

    pub fn new() -> (r: Self)
        ensures
            r.wf(),
            r@.len() == 0,
    {
        Self { inner: Vec::new() }
    }

    /// Append one element, or hand it back when the array is full.
    pub fn push(&mut self, elem: T) -> (r: Result<(), ArrayPushError<T>>)
        requires
            old(self).wf(),
        ensures
            final(self).wf(),
            old(self)@.len() < N ==> r is Ok && final(self)@ == old(self)@.push(elem),
            old(self)@.len() >= N ==> (r matches Err(e) && e.0 == elem) && final(self)@ == old(
                self,
            )@,
    {
        if self.inner.len() >= N {
            return Err(ArrayPushError(elem));
        }
        self.inner.push(elem);
        Ok(())
    }

    /// Take the elements out; all `N` slots must have been filled.
    pub fn assume_init_unchecked(self) -> (r: Vec<T>)
        requires
            self@.len() == N,
        ensures
            r@ == self@,
    {
        self.inner
    }

    /// Take the elements out, or report that slots are missing.
    pub fn assume_init(self) -> (r: Result<Vec<T>, ArrayNotFull>)
        requires
            self.wf(),
        ensures
            self@.len() == N ==> (r matches Ok(v) && v@ == self@),
            self@.len() != N ==> r is Err,
    {
        if self.inner.len() != N {
            return Err(ArrayNotFull(()));
        }
        Ok(self.inner)
    }

    /// Fill every remaining slot with copies of one element.
    pub fn push_rest_with(&mut self, elem: T) where T: Copy
        requires
            old(self).wf(),
        ensures
            final(self).wf(),
            final(self)@.len() == N,
            final(self)@.subrange(0, old(self)@.len() as int) == old(self)@,
            forall|j: int| old(self)@.len() <= j < N ==> final(self)@[j] == elem,
    {
        while self.inner.len() < N
            invariant
                old(self)@.len() <= self.inner@.len() <= N,
                self.inner@.subrange(0, old(self)@.len() as int) =~= old(self)@,
                forall|j: int| old(self)@.len() <= j < self.inner@.len() ==> self.inner@[j] == elem,
            decreases N - self.inner@.len(),
        {
            self.inner.push(elem);
            proof {
                assert(self.inner@.subrange(0, old(self)@.len() as int) =~= old(self)@);
            }
        }
    }
}

} // verus!
