use vstd::prelude::*;

verus! {

/// A listener's event type that can be derived from the engine's main
/// event type.
pub trait DerivedFromEvent<T>: Sized {
    fn from_event(evt: T) -> Self;
}

} // verus!
