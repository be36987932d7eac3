use vstd::prelude::*;

verus! {

/// Pairs a key type with the value type it indexes in the asset cache.
pub trait Key {
    type Value;
}

/// The asset cache capability set: lookup, insertion, removal, and the
/// crate-internal entry cloning used by handle upgrades. Implementations
/// are supplied by the embedding application.
pub trait Cache<I: Key> {
    fn lookup<'a>(&'a self, index: &I) -> Option<&'a I::Value>;

    fn insert(&mut self, index: &I, value: I::Value) -> bool;

    fn remove(&mut self, index: &I) -> Option<(I, I::Value)>;

    fn clone_entry(&mut self, index: &I, token: crate::machine_cog::OnlyCalledByThisCrate) -> I;
}

/// What kind of content an asset holds.
#[derive(Clone, Copy, PartialEq, Eq, Structural, Debug)]
pub enum AssetKind {
    JsonBody,
    GameWorld,
    RawData,
    Mesh,
    Other,
}

/// One loaded asset: its kind, a generation used to hash entries uniquely,
/// and its backing data.
#[derive(Debug)]
pub struct Asset<B> {
    pub kind: AssetKind,
    pub gen_id: usize,
    pub data: B,
}

} // verus!
