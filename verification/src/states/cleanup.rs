use vstd::prelude::*;

verus! {

/// The final machine state: everything the run accumulated, ready to be
/// torn down in order.
#[derive(Debug)]
pub struct Cleanup<C, M, Eq, S> {
    pub cleanup_plugin: C,
    pub main_plugin: M,
    pub event_queue: Eq,
    pub state: S,
}

} // verus!
