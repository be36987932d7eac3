use vstd::prelude::*;

verus! {

/// One decoded (or to-be-encoded) argument of a message, polymorphic over
/// the representation of object references and of file descriptors.
#[derive(Clone, Debug)]
pub enum Arg<Id, Fd> {
    Int(i32),
    Uint(u32),
    /// A 32-bit fixed-point number, carried as its raw wire value.
    Fixed(i32),
    /// An owned string; `None` is the absent (null) string.
    Str(Option<String>),
    /// A reference to an existing object.
    Object(Id),
    /// A newly created object reference.
    New(Id),
    /// An owned byte array.
    Array(Vec<u8>),
    /// A file descriptor; ownership transfers with the argument.
    Fd(Fd),
}

/// One message: its sender, its opcode within the sender's interface, and
/// its argument list in signature order.
#[derive(Clone, Debug)]
pub struct Event<Id, Fd> {
    pub sender: Id,
    pub opcode: u16,
    pub args: Vec<Arg<Id, Fd>>,
}

} // verus!
