use vstd::prelude::*;

use crate::errors::{Error, ErrorKind};
use crate::wayland::event::Arg;
use crate::wayland::ObjectId;

verus! {

/// The typed events of a callback: `done`, a destructor carrying the
/// callback datum. A callback has no requests.
#[derive(Debug)]
pub enum Event {
    Done { callback_data: u32 },
}

impl Event {
    /// Decode a typed event from the generic argument list: opcode 0 is
    /// `done`; anything else, or an argument of the wrong shape, is a
    /// `SubmitError`.
    pub fn parse(opcode: u16, args: Vec<Arg<ObjectId, i32>>) -> (r: Result<Event, Error>)
        ensures
            r is Ok <==> (opcode == 0 && args@.len() >= 1 && args@[0] is Uint),
            match r {
                Ok(ev) => (ev matches Event::Done { callback_data } ==> opcode == 0 && args@[0]
                    == Arg::<ObjectId, i32>::Uint(callback_data)),
                Err(e) => e.kind == ErrorKind::SubmitError,
            },
    {
        let ghost argsv = args@;
        let mut rest = args;
        if opcode == 0 {
            if rest.len() < 1 {
                return Err(Error::new(ErrorKind::SubmitError));
            }
            let a0 = rest.remove(0);
            proof {
                assert(a0 == argsv[0]);
            }
            match a0 {
                Arg::Uint(callback_data) => Ok(Event::Done { callback_data }),
                _ => Err(Error::new(ErrorKind::SubmitError)),
            }
        } else {
            Err(Error::new(ErrorKind::SubmitError))
        }
    }
}

} // verus!
