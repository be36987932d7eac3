use vstd::prelude::*;

use crate::wayland::ObjectId;
use crate::wayland::event::Event;

verus! {

/// The per-object event handler capability set.
///
/// `on_event` consumes the handler and returns either a handler to keep (the
/// same one to continue, a new one for a state transition) or `None` to stop
/// handling further events; when the event constructed a new object, the
/// returned handler is attached to that object instead. `on_destruction` is a
/// notification, invoked at most once, when the object's lifetime ends.
///
/// Implementations are supplied by users of the library; nothing is assumed
/// of what they return.
pub trait ObjectData: Sized + Clone {
    fn on_event(self, message: Event<ObjectId, i32>) -> Option<Self>;

    fn on_destruction(&self, id: ObjectId);
}

/// A handler that keeps itself and ignores every event.
#[derive(Clone, Copy, Debug)]
pub struct DummyObjectData;

impl ObjectData for DummyObjectData {
    fn on_event(self, _message: Event<ObjectId, i32>) -> (r: Option<Self>) {
        Some(self)
    }

    fn on_destruction(&self, _id: ObjectId) {
    }
}

} // verus!
