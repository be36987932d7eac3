use vstd::prelude::*;

verus! {

/// The default hasher state of the bidirectional map.
#[derive(Clone, Copy, Debug)]
pub struct RandomState;

impl RandomState {
    pub fn new() -> (r: Self) {
        RandomState
    }
}

/// The raw pair table backing the bidirectional map.
#[derive(Debug)]
pub struct Table<T> {
    pub items: Vec<T>,
}

impl<T> Table<T> {
    pub fn new() -> (r: Self)
        ensures
            r.items@.len() == 0,
    {
        Self { items: Vec::new() }
    }
}

/// A bidirectional map that keeps a single pair table instead of two
/// parallel maps. Population is not wired up yet, so the table is always
/// empty and both lookups are always absent — stated as such rather than
/// left unsaid.
#[derive(Debug)]
pub struct Bimap<L, R, LS = RandomState, RS = RandomState> {
    pub left_hash: LS,
    pub right_hash: RS,
    pub raw: Table<(L, R)>,
}

impl<L, R> Bimap<L, R> {
    pub fn new() -> (r: Self)
        ensures
            r.raw.items@.len() == 0,
    {
        Self { left_hash: RandomState::new(), right_hash: RandomState::new(), raw: Table::new() }
    }

    /// The value stored on the right of the pair whose left side is the
    /// key; always absent while the table is empty.
    pub fn get_right(&self, _key: &L) -> (r: Option<&R>)
        requires
            self.raw.items@.len() == 0,
        ensures
            r is None,
    {
        None
    }

    /// The value stored on the left of the pair whose right side is the
    /// key; always absent while the table is empty.
    pub fn get_left(&self, _key: &R) -> (r: Option<&L>)
        requires
            self.raw.items@.len() == 0,
        ensures
            r is None,
    {
        None
    }
}

} // verus!
