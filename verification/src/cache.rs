use vstd::prelude::*;

verus! {

/// Wraps a value so that equality and hashing go by an id alone: two
/// wrapped values compare equal exactly when their ids do, whatever the
/// data holds.
#[derive(Debug)]
pub struct IdHashed<T> {
    pub id: u32,
    pub data: T,
}

impl<T> IdHashed<T> {
    pub fn new(id: u32, data: T) -> (r: Self)
        ensures
            r.id == id,
            r.data == data,
    {
        Self { id, data }
    }
}

impl<T> PartialEq for IdHashed<T> {
    fn eq(&self, other: &Self) -> (r: bool) {
        self.id == other.id
    }
}

impl<T> vstd::std_specs::cmp::PartialEqSpecImpl for IdHashed<T> {
    open spec fn obeys_eq_spec() -> bool {
        true
    }

    open spec fn eq_spec(&self, other: &Self) -> bool {
        self.id == other.id
    }
}

/// The engine's asset cache; storage is not wired up yet.
#[derive(Debug)]
pub struct AssetCache {
    _priv: (),
}

impl AssetCache {
    pub fn new() -> Self {
        Self { _priv: () }
    }
}

} // verus!
