use vstd::prelude::*;

use crate::errors::{Error, ErrorKind};
use crate::wayland::connection::Connection;
use crate::wayland::data::ObjectData;
use crate::wayland::event::{Arg, Event as Evt};
use crate::wayland::interfaces::{wl_callback_interface, wl_surface_interface};
use crate::wayland::{Interface, ObjectId};

verus! {

/// The typed requests of a surface, one variant per request table entry.
#[derive(Debug)]
pub enum Request {
    Destroy,
    Attach { buffer: ObjectId, x_pos: i32, y_pos: i32 },
    Damage { x_pos: i32, y_pos: i32, width: i32, height: i32 },
    Frame,
    SetOpaqueRegion { region: ObjectId },
    SetInputRegion { region: ObjectId },
    Commit,
    SetBufferTransform { transform: i32 },
    SetBufferScale { scale: i32 },
    DamageBuffer { x_pos: i32, y_pos: i32 },
    Offset { off_x: i32, off_y: i32 },
}

/// The typed events of a surface.
#[derive(Debug)]
pub enum Event {
    Enter { output: ObjectId },
    Leave { out: ObjectId },
    PrefferedBufferScale { scale: i32 },
    PrefferedBufferTransform { transform: u32 },
}

impl Request {
    /// The opcode each request variant marshals to.
    pub open spec fn spec_opcode(&self) -> u16 {
        match self {
            Request::Destroy => 0,
            Request::Attach { .. } => 1,
            Request::Damage { .. } => 2,
            Request::Frame => 3,
            Request::SetOpaqueRegion { .. } => 4,
            Request::SetInputRegion { .. } => 5,
            Request::Commit => 6,
            Request::SetBufferTransform { .. } => 7,
            Request::SetBufferScale { .. } => 8,
            Request::DamageBuffer { .. } => 9,
            Request::Offset { .. } => 10,
        }
    }

    /// The argument list each request variant marshals to. `Frame` carries
    /// one `new-id` argument holding the nil object, which has no
    /// mathematical constructor; its argument list is stated separately in
    /// `write`'s contract.
    pub open spec fn spec_args(&self) -> Seq<Arg<ObjectId, i32>> {
        match *self {
            Request::Destroy => seq![],
            Request::Attach { buffer, x_pos, y_pos } => seq![
                Arg::Object(buffer),
                Arg::Int(x_pos),
                Arg::Int(y_pos),
            ],
            Request::Damage { x_pos, y_pos, width, height } => seq![
                Arg::Int(x_pos),
                Arg::Int(y_pos),
                Arg::Int(width),
                Arg::Int(height),
            ],
            Request::Frame => seq![],
            Request::SetOpaqueRegion { region } => seq![Arg::Object(region)],
            Request::SetInputRegion { region } => seq![Arg::Object(region)],
            Request::Commit => seq![],
            Request::SetBufferTransform { transform } => seq![Arg::Int(transform)],
            Request::SetBufferScale { scale } => seq![Arg::Int(scale)],
            Request::DamageBuffer { x_pos, y_pos } => seq![Arg::Int(x_pos), Arg::Int(y_pos)],
            Request::Offset { off_x, off_y } => seq![Arg::Int(off_x), Arg::Int(off_y)],
        }
    }

    /// Convert the typed request into the generic argument list plus a
    /// child specification: `frame` constructs a callback at the sender's
    /// effective version, every other request constructs nothing (the
    /// surface interface is passed along and ignored by the marshaler).
    /// Fails exactly when the sender cannot send.
    pub fn write<D: ObjectData>(self, conn: &Connection<D>, sender: &ObjectId) -> (r: Result<
        (Evt<ObjectId, i32>, Option<(Interface, u32)>),
        Error,
    >)
        requires
            conn.wf(),
        ensures
            match r {
                Ok((ev, cs)) => {
                    &&& conn.spec_sender_ok(*sender)
                    &&& ev.sender@ == sender@
                    &&& ev.opcode == self.spec_opcode()
                    &&& (self is Frame ==> ev.args@.len() == 1 && (ev.args@[0] matches Arg::New(o)
                        && o.spec_is_null()))
                    &&& (!(self is Frame) ==> ev.args@ == self.spec_args())
                    &&& (cs matches Some(civ) && civ.1 == conn.spec_version_of(*sender))
                    &&& (self is Frame ==> cs.unwrap().0.name@ == "wl_callback"@)
                    &&& (!(self is Frame) ==> cs.unwrap().0.name@ == "wl_surface"@)
                },
                Err(e) => !conn.spec_sender_ok(*sender) && e.kind == ErrorKind::InvalidId,
            },
    {
        let info = match conn.object_info(sender.clone()) {
            Ok(i) => i,
            Err(e) => {
                return Err(e);
            },
        };
        let version = info.version;
        let sid = sender.clone();
        match self {
            Request::Destroy => Ok(
                (
                    Evt { sender: sid, opcode: 0, args: Vec::new() },
                    Some((wl_surface_interface(), version)),
                ),
            ),
            Request::Attach { buffer, x_pos, y_pos } => Ok(
                (
                    Evt {
                        sender: sid,
                        opcode: 1,
                        args: vec![Arg::Object(buffer), Arg::Int(x_pos), Arg::Int(y_pos)],
                    },
                    Some((wl_surface_interface(), version)),
                ),
            ),
            Request::Damage { x_pos, y_pos, width, height } => Ok(
                (
                    Evt {
                        sender: sid,
                        opcode: 2,
                        args: vec![
                            Arg::Int(x_pos),
                            Arg::Int(y_pos),
                            Arg::Int(width),
                            Arg::Int(height),
                        ],
                    },
                    Some((wl_surface_interface(), version)),
                ),
            ),
            Request::Frame => Ok(
                (
                    Evt { sender: sid, opcode: 3, args: vec![Arg::New(ObjectId::nil())] },
                    Some((wl_callback_interface(), version)),
                ),
            ),
            Request::SetOpaqueRegion { region } => Ok(
                (
                    Evt { sender: sid, opcode: 4, args: vec![Arg::Object(region)] },
                    Some((wl_surface_interface(), version)),
                ),
            ),
            Request::SetInputRegion { region } => Ok(
                (
                    Evt { sender: sid, opcode: 5, args: vec![Arg::Object(region)] },
                    Some((wl_surface_interface(), version)),
                ),
            ),
            Request::Commit => Ok(
                (
                    Evt { sender: sid, opcode: 6, args: Vec::new() },
                    Some((wl_surface_interface(), version)),
                ),
            ),
            Request::SetBufferTransform { transform } => Ok(
                (
                    Evt { sender: sid, opcode: 7, args: vec![Arg::Int(transform)] },
                    Some((wl_surface_interface(), version)),
                ),
            ),
            Request::SetBufferScale { scale } => Ok(
                (
                    Evt { sender: sid, opcode: 8, args: vec![Arg::Int(scale)] },
                    Some((wl_surface_interface(), version)),
                ),
            ),
            Request::DamageBuffer { x_pos, y_pos } => Ok(
                (
                    Evt { sender: sid, opcode: 9, args: vec![Arg::Int(x_pos), Arg::Int(y_pos)] },
                    Some((wl_surface_interface(), version)),
                ),
            ),
            Request::Offset { off_x, off_y } => Ok(
                (
                    Evt { sender: sid, opcode: 10, args: vec![Arg::Int(off_x), Arg::Int(off_y)] },
                    Some((wl_surface_interface(), version)),
                ),
            ),
        }
    }
}

impl Event {
    /// Decode a typed event from the generic argument list, per the event
    /// table: `enter` and `leave` carry an output object, the preferred
    /// buffer scale and transform carry one integer; anything else, or
    /// arguments of the wrong shape, is a `SubmitError`.
    pub fn parse(opcode: u16, args: Vec<Arg<ObjectId, i32>>) -> (r: Result<Event, Error>)
        ensures
            r is Ok <==> ((opcode == 0 || opcode == 1) && args@.len() >= 1 && args@[0] is Object
                || (opcode == 2 && args@.len() >= 1 && args@[0] is Int) || (opcode == 3
                && args@.len() >= 1 && args@[0] is Uint)),
            match r {
                Ok(ev) => match ev {
                    Event::Enter { output } => opcode == 0 && args@[0] == Arg::<
                        ObjectId,
                        i32,
                    >::Object(output),
                    Event::Leave { out } => opcode == 1 && args@[0] == Arg::<ObjectId, i32>::Object(
                        out,
                    ),
                    Event::PrefferedBufferScale { scale } => opcode == 2 && args@[0] == Arg::<
                        ObjectId,
                        i32,
                    >::Int(scale),
                    Event::PrefferedBufferTransform { transform } => opcode == 3 && args@[0]
                        == Arg::<ObjectId, i32>::Uint(transform),
                },
                Err(e) => e.kind == ErrorKind::SubmitError,
            },
    {
        let ghost argsv = args@;
        let mut rest = args;
        if rest.len() < 1 {
            return Err(Error::new(ErrorKind::SubmitError));
        }
        let a0 = rest.remove(0);
        proof {
            assert(a0 == argsv[0]);
        }
        if opcode == 0 {
            match a0 {
                Arg::Object(output) => Ok(Event::Enter { output }),
                _ => Err(Error::new(ErrorKind::SubmitError)),
            }
        } else if opcode == 1 {
            match a0 {
                Arg::Object(out) => Ok(Event::Leave { out }),
                _ => Err(Error::new(ErrorKind::SubmitError)),
            }
        } else if opcode == 2 {
            match a0 {
                Arg::Int(scale) => Ok(Event::PrefferedBufferScale { scale }),
                _ => Err(Error::new(ErrorKind::SubmitError)),
            }
        } else if opcode == 3 {
            match a0 {
                Arg::Uint(transform) => Ok(Event::PrefferedBufferTransform { transform }),
                _ => Err(Error::new(ErrorKind::SubmitError)),
            }
        } else {
            Err(Error::new(ErrorKind::SubmitError))
        }
    }
}

} // verus!
