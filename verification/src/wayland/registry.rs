use vstd::prelude::*;

use crate::errors::{Error, ErrorKind};
use crate::wayland::connection::Connection;
use crate::wayland::data::ObjectData;
use crate::wayland::event::{Arg, Event as Evt};
use crate::wayland::{Interface, ObjectId};

verus! {

/// The typed requests of the registry: binding a global constructs a child
/// whose interface the caller supplies.
#[derive(Debug)]
pub enum Request {
    Bind { name: u32, iface: Interface, version: u32 },
}

/// The typed events of the registry: a global appears or goes away.
#[derive(Debug)]
pub enum Event {
    Global { name: u32, iface: String, version: u32 },
    Remove { name: u32 },
}

impl Request {
    /// Convert a `bind` into the generic argument list — the global's
    /// numeric name, the interface's name, and the version — plus the bound
    /// interface as the explicit child specification.
    pub fn write<D: ObjectData>(self, conn: &Connection<D>, sender: &ObjectId) -> (r: Result<
        (Evt<ObjectId, i32>, Option<(Interface, u32)>),
        Error,
    >)
        requires
            conn.wf(),
        ensures
            match r {
                Ok((ev, cs)) => {
                    &&& conn.spec_sender_ok(*sender)
                    &&& ev.sender@ == sender@
                    &&& ev.opcode == 0
                    &&& (self matches Request::Bind { name, iface, version } ==> {
                        &&& ev.args@.len() == 3
                        &&& ev.args@[0] == Arg::<ObjectId, i32>::Uint(name)
                        &&& (ev.args@[1] matches Arg::Str(s) && s matches Some(sv) && sv@
                            == iface.name@)
                        &&& ev.args@[2] == Arg::<ObjectId, i32>::Uint(version)
                        &&& (cs matches Some(civ) && civ.0 == iface && civ.1
                            == conn.spec_version_of(*sender))
                    })
                },
                Err(e) => !conn.spec_sender_ok(*sender) && e.kind == ErrorKind::InvalidId,
            },
    {
        let info = match conn.object_info(sender.clone()) {
            Ok(i) => i,
            Err(e) => {
                return Err(e);
            },
        };
        match self {
            Request::Bind { name, iface, version } => {
                let iface_name = iface.name.clone();
                Ok(
                    (
                        Evt {
                            sender: sender.clone(),
                            opcode: 0,
                            args: vec![
                                Arg::Uint(name),
                                Arg::Str(Some(iface_name)),
                                Arg::Uint(version),
                            ],
                        },
                        Some((iface, info.version)),
                    ),
                )
            },
        }
    }
}

impl Event {
    /// The opcode a typed event answers to.
    pub fn opcode(&self) -> (r: u16)
        ensures
            self is Global ==> r == 0,
            self is Remove ==> r == 1,
    {
        match self {
            Self::Global { .. } => 0,
            Self::Remove { .. } => 1,
        }
    }

    /// Decode a typed event from the generic argument list: opcode 0 is
    /// `global` with the numeric name, the interface name and the version,
    /// opcode 1 is `global_remove`; anything else, or arguments of the
    /// wrong shape, is a `SubmitError`.
    pub fn parse(opcode: u16, args: Vec<Arg<ObjectId, i32>>) -> (r: Result<Event, Error>)
        ensures
            r is Ok <==> ((opcode == 0 && args@.len() >= 3 && args@[0] is Uint && (args@[1]
                matches Arg::Str(s) && s is Some) && args@[2] is Uint) || (opcode == 1
                && args@.len() >= 1 && args@[0] is Uint)),
            match r {
                Ok(ev) => match ev {
                    Event::Global { name, iface, version } => opcode == 0 && args@[0] == Arg::<
                        ObjectId,
                        i32,
                    >::Uint(name) && args@[1] == Arg::<ObjectId, i32>::Str(Some(iface))
                        && args@[2] == Arg::<ObjectId, i32>::Uint(version),
                    Event::Remove { name } => opcode == 1 && args@[0] == Arg::<ObjectId, i32>::Uint(
                        name,
                    ),
                },
                Err(e) => e.kind == ErrorKind::SubmitError,
            },
    {
        let ghost argsv = args@;
        let mut rest = args;
        if opcode == 0 {
            if rest.len() < 3 {
                return Err(Error::new(ErrorKind::SubmitError));
            }
            let a0 = rest.remove(0);
            let a1 = rest.remove(0);
            let a2 = rest.remove(0);
            proof {
                assert(a0 == argsv[0]);
                assert(argsv.remove(0) =~= argsv.skip(1));
                assert(a1 == argsv[1]);
                assert(argsv.skip(1).remove(0) =~= argsv.skip(2));
                assert(a2 == argsv[2]);
            }
            match (a0, a1, a2) {
                (Arg::Uint(name), Arg::Str(iface_opt), Arg::Uint(version)) => match iface_opt {
                    Some(iface) => Ok(Event::Global { name, iface, version }),
                    None => Err(Error::new(ErrorKind::SubmitError)),
                },
                _ => Err(Error::new(ErrorKind::SubmitError)),
            }
        } else if opcode == 1 {
            if rest.len() < 1 {
                return Err(Error::new(ErrorKind::SubmitError));
            }
            let a0 = rest.remove(0);
            proof {
                assert(a0 == argsv[0]);
            }
            match a0 {
                Arg::Uint(name) => Ok(Event::Remove { name }),
                _ => Err(Error::new(ErrorKind::SubmitError)),
            }
        } else {
            Err(Error::new(ErrorKind::SubmitError))
        }
    }
}

} // verus!
