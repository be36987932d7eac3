use vstd::prelude::*;

pub mod callback;
pub mod connection;
pub mod data;
pub mod display;
pub mod event;
pub mod event_loop;
pub mod interfaces;
pub mod registry;
pub mod surface;
pub mod wire;

verus! {

/// The shape of one argument slot of a message: drives both encoding and
/// decoding. The `bool` of `Str` and `Object` says whether the slot may be
/// null.
#[derive(Clone, Copy, PartialEq, Eq, Structural, Debug)]
pub enum ArgKind {
    Int,
    Uint,
    Fixed,
    Str(bool),
    Object(bool),
    New,
    Array,
    Fd,
}

/// The mathematical value of a `Message`: every field as a sequence-level
/// value, so that contracts can compare messages that were built or cloned
/// separately.
#[verifier::ext_equal]
pub ghost struct MessageView {
    pub name: Seq<char>,
    pub sig: Seq<ArgKind>,
    pub since: u32,
    pub is_destructor: bool,
    pub child: Option<Seq<char>>,
    pub arg_interfaces: Seq<Seq<char>>,
}

/// The static description of one request or event: name, argument shapes,
/// minimum version, destructor flag, the default child interface a `new-id`
/// argument constructs (by name, resolved against the connection's schema
/// registry), and the expected interface name of each object-carrying
/// argument position.
#[derive(Debug)]
pub struct Message {
    pub name: String,
    pub sig: Vec<ArgKind>,
    pub since: u32,
    pub is_destructor: bool,
    pub child: Option<String>,
    pub arg_interfaces: Vec<String>,
}

impl View for Message {
    type V = MessageView;

    open spec fn view(&self) -> MessageView {
        MessageView {
            name: self.name@,
            sig: self.sig@,
            since: self.since,
            is_destructor: self.is_destructor,
            child: match self.child {
                Some(c) => Some(c@),
                None => None,
            },
            arg_interfaces: self.arg_interfaces@.map_values(|s: String| s@),
        }
    }
}

impl Clone for Message {
    fn clone(&self) -> (r: Self)
        ensures
            r@ == self@,
    {
        let r = Self {
            name: self.name.clone(),
            sig: self.sig.clone(),
            since: self.since,
            is_destructor: self.is_destructor,
            child: self.child.clone(),
            arg_interfaces: self.arg_interfaces.clone(),
        };
        proof {
            assert forall|i: int| 0 <= i < self.sig@.len() implies r.sig@[i] == self.sig@[i] by {
                assert(cloned::<ArgKind>(self.sig[i], r.sig[i]));
            }
            assert(r.sig@ =~= self.sig@);
            assert forall|i: int|
                0 <= i < self.arg_interfaces@.len() implies r.arg_interfaces@[i]
                == self.arg_interfaces@[i] by {
                assert(cloned::<String>(self.arg_interfaces[i], r.arg_interfaces[i]));
            }
            assert(r.arg_interfaces@ =~= self.arg_interfaces@);
            if self.child is Some {
                assert(cloned::<String>(self.child.unwrap(), r.child.unwrap()));
            }
            assert(r@ =~~= self@);
        }
        r
    }
}

impl Message {
    /// The common destructor request: no arguments, valid from version 1.
    pub fn destroy() -> (r: Self)
        ensures
            r.name@ == "destroy"@,
            r.sig@ =~= Seq::<ArgKind>::empty(),
            r.since == 1,
            r.is_destructor,
            r.child is None,
            r.arg_interfaces@ =~= Seq::<String>::empty(),
    {
        let mut m = Self::new("destroy");
        m.is_destructor = true;
        m
    }

    pub fn new(name: &str) -> (r: Self)
        ensures
            r.name@ == name@,
            r.sig@ =~= Seq::<ArgKind>::empty(),
            r.since == 1,
            !r.is_destructor,
            r.child is None,
            r.arg_interfaces@ =~= Seq::<String>::empty(),
    {
        Self::with_sig(name, Vec::new())
    }

    pub fn with_sig(name: &str, sig: Vec<ArgKind>) -> (r: Self)
        ensures
            r.name@ == name@,
            r.sig == sig,
            r.since == 1,
            !r.is_destructor,
            r.child is None,
            r.arg_interfaces@ =~= Seq::<String>::empty(),
    {
        Self {
            name: name.to_owned(),
            sig,
            since: 1,
            is_destructor: false,
            child: None,
            arg_interfaces: Vec::new(),
        }
    }

    pub fn since(self, since: u32) -> (r: Self)
        ensures
            r == (Self { since, ..self }),
    {
        Self { since, ..self }
    }

    pub fn child(self, child: &Interface) -> (r: Self)
        ensures
            r == (Self { child: Some(child.name), ..self }),
    {
        Self { child: Some(child.name.clone()), ..self }
    }

    pub fn ifaces(self, ifaces: Vec<String>) -> (r: Self)
        ensures
            r == (Self { arg_interfaces: ifaces, ..self }),
    {
        Self { arg_interfaces: ifaces, ..self }
    }

    pub fn destructor(self, v: bool) -> (r: Self)
        ensures
            r == (Self { is_destructor: v, ..self }),
    {
        Self { is_destructor: v, ..self }
    }
}

/// The mathematical value of an `Interface`.
#[verifier::ext_equal]
pub ghost struct InterfaceView {
    pub name: Seq<char>,
    pub version: u32,
    pub requests: Seq<MessageView>,
    pub events: Seq<MessageView>,
    pub raw_interface: Option<usize>,
}

/// The static description of one protocol object type: its name, protocol
/// version, request table and event table, and optionally a handle to the
/// native descriptor the transport knows it by.
#[derive(Debug)]
pub struct Interface {
    pub name: String,
    pub version: u32,
    pub requests: Vec<Message>,
    pub events: Vec<Message>,
    pub raw_interface: Option<usize>,
}

impl View for Interface {
    type V = InterfaceView;

    open spec fn view(&self) -> InterfaceView {
        InterfaceView {
            name: self.name@,
            version: self.version,
            requests: self.requests@.map_values(|m: Message| m@),
            events: self.events@.map_values(|m: Message| m@),
            raw_interface: self.raw_interface,
        }
    }
}

impl Clone for Interface {
    fn clone(&self) -> (r: Self)
        ensures
            r@ == self@,
    {
        let r = Self {
            name: self.name.clone(),
            version: self.version,
            requests: self.requests.clone(),
            events: self.events.clone(),
            raw_interface: self.raw_interface,
        };
        proof {
            assert forall|i: int|
                0 <= i < self.requests@.len() implies #[trigger] r.requests@[i]@
                == self.requests@[i]@ by {
                assert(cloned::<Message>(self.requests[i], r.requests[i]));
            }
            assert forall|i: int|
                0 <= i < self.events@.len() implies #[trigger] r.events@[i]@
                == self.events@[i]@ by {
                assert(cloned::<Message>(self.events[i], r.events[i]));
            }
            assert(r@.requests =~= self@.requests);
            assert(r@.events =~= self@.events);
            assert(r@ =~~= self@);
        }
        r
    }
}

/// Two interface descriptions denote the same protocol type when their names
/// agree; duplicate definitions of one type in separate modules therefore
/// compare equal.
pub open spec fn spec_same_interface(i1: &Interface, i2: &Interface) -> bool {
    i1.name@ == i2.name@
}

pub fn same_interface(i1: &Interface, i2: &Interface) -> (r: bool)
    ensures
        r == spec_same_interface(i1, i2),
{
    i1.name == i2.name
}

impl Interface {
    /// The placeholder interface of the nil object and of foreign objects
    /// whose type the schema does not pin down.
    pub fn anon() -> (r: Self)
        ensures
            r.name@ == "<anonymous>"@,
            r.version == 0,
            r.requests@ =~= Seq::<Message>::empty(),
            r.events@ =~= Seq::<Message>::empty(),
            r.raw_interface is None,
    {
        Self::new("<anonymous>", 0)
    }

    pub fn new(name: &str, version: u32) -> (r: Self)
        ensures
            r.name@ == name@,
            r.version == version,
            r.requests@ =~= Seq::<Message>::empty(),
            r.events@ =~= Seq::<Message>::empty(),
            r.raw_interface is None,
    {
        Self {
            name: name.to_owned(),
            version,
            requests: Vec::new(),
            events: Vec::new(),
            raw_interface: None,
        }
    }

    pub fn requests(self, requests: Vec<Message>) -> (r: Self)
        ensures
            r == (Self { requests, ..self }),
    {
        Self { requests, ..self }
    }

    pub fn events(self, events: Vec<Message>) -> (r: Self)
        ensures
            r == (Self { events, ..self }),
    {
        Self { events, ..self }
    }

    /// Record the handle of the native descriptor for this interface.
    pub fn iface(self, iface: usize) -> (r: Self)
        ensures
            r == (Self { raw_interface: Some(iface), ..self }),
    {
        Self { raw_interface: Some(iface), ..self }
    }
}

/// The identity of one remote object: its slot in the proxy arena (absent
/// for the null object), its numeric wire id, its interface, and the handle
/// of the liveness flag shared by every clone of this identity.
///
/// A dead `ObjectId` remains a valid, inspectable value; liveness is read
/// through the owning connection.
#[derive(Debug)]
pub struct ObjectId {
    pub proxy: Option<usize>,
    pub id: u32,
    pub iface: Interface,
    pub alive: Option<usize>,
}

/// The mathematical value of an `ObjectId`.
#[verifier::ext_equal]
pub ghost struct ObjectIdView {
    pub proxy: Option<usize>,
    pub id: u32,
    pub iface: InterfaceView,
    pub alive: Option<usize>,
}

impl View for ObjectId {
    type V = ObjectIdView;

    open spec fn view(&self) -> ObjectIdView {
        ObjectIdView {
            proxy: self.proxy,
            id: self.id,
            iface: self.iface@,
            alive: self.alive,
        }
    }
}

impl Clone for ObjectId {
    fn clone(&self) -> (r: Self)
        ensures
            r@ == self@,
    {
        Self {
            proxy: self.proxy,
            id: self.id,
            iface: self.iface.clone(),
            alive: self.alive,
        }
    }
}

impl ObjectId {
    /// The well-defined sentinel for "no object".
    pub open spec fn spec_is_null(&self) -> bool {
        &&& self.alive is None
        &&& self.proxy is None
        &&& self.id == 0
        &&& self.iface.name@ == "<anonymous>"@
    }

    pub fn nil() -> (r: Self)
        ensures
            r.spec_is_null(),
            r.proxy is None,
            r.id == 0,
            r.alive is None,
    {
        Self { proxy: None, id: 0, iface: Interface::anon(), alive: None }
    }

    pub fn is_null(&self) -> (r: bool)
        ensures
            r == self.spec_is_null(),
    {
        let anon = Interface::anon();
        self.alive.is_none() && self.proxy.is_none() && self.id == 0
            && same_interface(&self.iface, &anon)
    }
}

/// What a connection knows of one object: its identity, interface, and the
/// protocol version its proxy was created with.
#[derive(Debug)]
pub struct ObjectMetadata {
    pub id: ObjectId,
    pub iface: Interface,
    pub version: u32,
}

} // verus!
