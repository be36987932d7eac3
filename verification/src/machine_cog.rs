use vstd::prelude::*;

verus! {

/// The input handed to one state-machine transition.
#[derive(Debug)]
pub struct MachineInput<I> {
    pub input: I,
}

/// Implemented only by this crate's own state types, so that outside code
/// cannot add machine states.
pub trait Sealed {

}

/// A token that only this crate can construct, passed to transition entry
/// points so they cannot be driven from outside.
#[derive(Clone, Copy, Debug)]
pub struct OnlyCalledByThisCrate {
    _priv: (),
}

impl OnlyCalledByThisCrate {
    pub(crate) fn val() -> Self {
        Self { _priv: () }
    }
}

/// Projects the element types out of a tuple of successor states.
pub trait TupleHelper {
    type E1;

    type E2;

    type E3;

    type E4;
}

} // verus!
