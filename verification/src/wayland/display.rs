use vstd::prelude::*;

use crate::errors::{Error, ErrorKind};
use crate::wayland::connection::Connection;
use crate::wayland::data::ObjectData;
use crate::wayland::event::{Arg, Event as Evt};
use crate::wayland::interfaces::{wl_callback_interface, wl_registry_interface};
use crate::wayland::{Interface, ObjectId};

verus! {

/// The typed requests of the root object; each constructs a child object.
#[derive(Debug)]
pub enum Request {
    Sync,
    GetRegistry,
}

/// The typed events of the root object.
#[derive(Debug)]
pub enum Event {
    Error { id: ObjectId, code: u32, message: String },
    Delete { id: u32 },
}

impl Request {
    /// Convert the typed request into the generic argument list plus the
    /// child specification the marshaler validates: `sync` constructs a
    /// callback, `get_registry` a registry, both at the sender's effective
    /// version. Fails exactly when the sender cannot send.
    pub fn write<D: ObjectData>(self, conn: &Connection<D>, sender: &ObjectId) -> (r: Result<
        (Evt<ObjectId, i32>, Option<(Interface, u32)>),
        Error,
    >)
        requires
            conn.wf(),
        ensures
            match r {
                Ok((ev, cs)) => {
                    &&& conn.spec_sender_ok(*sender)
                    &&& ev.sender@ == sender@
                    &&& ev.args@.len() == 1
                    &&& (ev.args@[0] matches Arg::New(o) && o.spec_is_null())
                    &&& (cs matches Some(civ) && civ.1 == conn.spec_version_of(*sender))
                    &&& (self is Sync ==> ev.opcode == 0 && cs.unwrap().0.name@ == "wl_callback"@)
                    &&& (self is GetRegistry ==> ev.opcode == 1 && cs.unwrap().0.name@
                        == "wl_registry"@)
                },
                Err(e) => !conn.spec_sender_ok(*sender) && e.kind == ErrorKind::InvalidId,
            },
    {
        let info = match conn.object_info(sender.clone()) {
            Ok(i) => i,
            Err(e) => {
                return Err(e);
            },
        };
        match self {
            Request::Sync => Ok(
                (
                    Evt { sender: sender.clone(), opcode: 0, args: vec![Arg::New(ObjectId::nil())] },
                    Some((wl_callback_interface(), info.version)),
                ),
            ),
            Request::GetRegistry => Ok(
                (
                    Evt { sender: sender.clone(), opcode: 1, args: vec![Arg::New(ObjectId::nil())] },
                    Some((wl_registry_interface(), info.version)),
                ),
            ),
        }
    }
}

impl Event {
    /// Decode a typed event from the generic argument list: opcode 0 is
    /// `error` with a culprit object, a code and a description, opcode 1 is
    /// `delete_id`; anything else, or arguments of the wrong shape, is a
    /// `SubmitError`.
    pub fn parse(opcode: u16, args: Vec<Arg<ObjectId, i32>>) -> (r: Result<Event, Error>)
        ensures
            r is Ok <==> ((opcode == 0 && args@.len() >= 3 && args@[0] is Object && args@[1]
                is Uint && (args@[2] matches Arg::Str(s) && s is Some)) || (opcode == 1
                && args@.len() >= 1 && args@[0] is Uint)),
            match r {
                Ok(ev) => match ev {
                    Event::Error { id, code, message } => opcode == 0 && args@[0] == Arg::<
                        ObjectId,
                        i32,
                    >::Object(id) && args@[1] == Arg::<ObjectId, i32>::Uint(code) && args@[2]
                        == Arg::<ObjectId, i32>::Str(Some(message)),
                    Event::Delete { id } => opcode == 1 && args@[0] == Arg::<ObjectId, i32>::Uint(
                        id,
                    ),
                },
                Err(e) => e.kind == ErrorKind::SubmitError,
            },
    {
        let ghost argsv = args@;
        let mut rest = args;
        if opcode == 0 {
            if rest.len() < 3 {
                return Err(Error::new(ErrorKind::SubmitError));
            }
            let a0 = rest.remove(0);
            let a1 = rest.remove(0);
            let a2 = rest.remove(0);
            proof {
                assert(a0 == argsv[0]);
                assert(argsv.remove(0) =~= argsv.skip(1));
                assert(a1 == argsv[1]);
                assert(argsv.skip(1).remove(0) =~= argsv.skip(2));
                assert(a2 == argsv[2]);
            }
            match (a0, a1, a2) {
                (Arg::Object(id), Arg::Uint(code), Arg::Str(message_opt)) => match message_opt {
                    Some(message) => Ok(Event::Error { id, code, message }),
                    None => Err(Error::new(ErrorKind::SubmitError)),
                },
                _ => Err(Error::new(ErrorKind::SubmitError)),
            }
        } else if opcode == 1 {
            if rest.len() < 1 {
                return Err(Error::new(ErrorKind::SubmitError));
            }
            let a0 = rest.remove(0);
            proof {
                assert(a0 == argsv[0]);
            }
            match a0 {
                Arg::Uint(id) => Ok(Event::Delete { id }),
                _ => Err(Error::new(ErrorKind::SubmitError)),
            }
        } else {
            Err(Error::new(ErrorKind::SubmitError))
        }
    }
}

} // verus!
