use vstd::prelude::*;

verus! {

/// A borrow counter: counts shared borrows and can be locked for a single
/// mutable borrow once no shared borrow is out.
pub trait Counter: Sized {
    /// The counter's starting state: no borrows.
    fn init() -> Self;

    /// Record one more shared borrow.
    fn increment(&mut self);

    /// Record the end of one shared borrow.
    fn decrement(&mut self);

    /// Try to lock for mutable access; succeeds only when no shared
    /// borrow is out.
    fn set_mutable(&mut self) -> bool;

    /// Whether the counter is locked for mutable access.
    fn is_set_mutable(&self) -> bool;
}

impl Counter for usize {
    fn init() -> (r: Self) {
        0
    }

    fn increment(&mut self) {
        if *self < usize::MAX - 1 {
            *self = *self + 1;
        }
    }

    fn decrement(&mut self) {
        if *self > 0 && *self < usize::MAX {
            *self = *self - 1;
        }
    }

    fn set_mutable(&mut self) -> (r: bool) {
        if *self != 0 {
            return false;
        }
        *self = usize::MAX;
        true
    }

    fn is_set_mutable(&self) -> (r: bool) {
        *self == usize::MAX
    }
}

/// A value guarded by a borrow counter.
#[derive(Debug)]
pub struct Mutable<C, T> {
    pub borrow: C,
    pub val: T,
}

impl<C: Counter, T> Mutable<C, T> {
    pub fn new(val: T) -> (r: Self)
        ensures
            r.val == val,
    {
        Self { borrow: C::init(), val }
    }
}

} // verus!
