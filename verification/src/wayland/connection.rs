use vstd::prelude::*;

use crate::errors::{Error, ErrorKind};
use crate::wayland::data::ObjectData;
use crate::wayland::event::{Arg, Event};
use crate::wayland::wire::{decode_value, encode_args_view, spec_decode_value, NativeArg, WireMessage, spec_encode_arg};
use crate::wayland::{ArgKind, Interface, InterfaceView, MessageView, ObjectId, ObjectMetadata};

verus! {

/// What the connection tracks of one live proxy: its numeric wire id, the
/// protocol version it was created with, its interface, the index of its
/// liveness flag, its handler, and the queue it is bound to.
pub struct ProxySlot<D> {
    pub wire_id: u32,
    pub version: u32,
    pub iface: Interface,
    pub flag: usize,
    pub data: Option<D>,
    pub queue: usize,
}

/// One event queue: the set of proxy handles currently known to
/// (registered against) it, kept without duplicates.
pub struct QueueSlot {
    pub known: Vec<usize>,
}

/// One pending inbound event as the transport queues it: the target proxy
/// handle, the opcode, and the raw native argument slots.
pub struct InboundMessage {
    pub proxy: usize,
    pub opcode: u16,
    pub args: Vec<crate::wayland::wire::NativeArg>,
}

/// The connection: the display-side state that the native transport would
/// hold, made explicit. Proxies live in an arena indexed by handle;
/// liveness flags live in their own monotone arena so a dead `ObjectId`
/// stays inspectable after its proxy slot is freed; marshalled requests
/// accumulate in `outbound`; inbound events wait in `inbound` until a
/// dispatch pass.
pub struct Connection<D> {
    /// The registered interface descriptions, used to resolve child
    /// interfaces by name.
    pub schema: Vec<Interface>,
    /// The liveness flag arena; flags are cleared at most once and never
    /// freed or set back to true.
    pub flags: Vec<bool>,
    /// The proxy arena; a freed proxy leaves `None` behind and its handle is
    /// never reused.
    pub proxies: Vec<Option<ProxySlot<D>>>,
    /// The event queues; index 0 is the connection's primary queue.
    pub queues: Vec<QueueSlot>,
    /// Requests marshalled so far, oldest first.
    pub outbound: Vec<WireMessage>,
    /// Inbound events queued by the transport and not yet dispatched.
    pub inbound: Vec<InboundMessage>,
    /// How many outbound messages have been flushed to the wire.
    pub flushed: usize,
    /// Whether a read is currently prepared (the two-phase read protocol
    /// allows at most one outstanding preparation).
    pub prepared: bool,
    /// The wire id the next locally created object will receive.
    pub next_wire_id: u32,
    /// How many blocking reads have completed.
    pub reads: Ghost<nat>,
    /// How many prepared reads were cancelled.
    pub cancels: Ghost<nat>,
    /// How many dispatch passes have run.
    pub dispatch_passes: Ghost<nat>,
}

/// Liveness can only be lost, never regained: every flag that is false
/// before an operation is still false after it, and old flags are never
/// dropped. Together with each flag starting true when its object is
/// created, this is the "true to false at most once" lifetime rule.
pub open spec fn flags_monotone(pre: Seq<bool>, post: Seq<bool>) -> bool {
    &&& pre.len() <= post.len()
    &&& forall|i: int| 0 <= i < pre.len() && #[trigger] post[i] ==> pre[i]
}

pub proof fn lemma_flags_monotone_trans(a: Seq<bool>, b: Seq<bool>, c: Seq<bool>)
    requires
        flags_monotone(a, b),
        flags_monotone(b, c),
    ensures
        flags_monotone(a, c),
{
}

impl<D> Connection<D> {
    /// Well-formedness of one proxy slot: its flag and owning queue exist.
    pub open spec fn slot_wf(self, s: ProxySlot<D>) -> bool {
        &&& s.flag < self.flags@.len()
        &&& s.queue < self.queues@.len()
    }

    /// Every known handle names an occupied proxy slot whose recorded
    /// owning queue is exactly the queue that knows it.
    pub open spec fn known_ok(self) -> bool {
        forall|q: int, i: int|
            #![trigger self.queues@[q].known@[i]]
            0 <= q < self.queues@.len() && 0 <= i < self.queues@[q].known@.len() ==> {
                let h = self.queues@[q].known@[i] as int;
                &&& h < self.proxies@.len()
                &&& self.proxies@[h] is Some
                &&& self.proxies@[h].unwrap().queue == q
            }
    }

    /// The connection's invariant, established by `connect` and preserved by
    /// every operation.
    pub open spec fn wf(self) -> bool {
        &&& forall|h: int|
            0 <= h < self.proxies@.len() && (#[trigger] self.proxies@[h]) is Some
                ==> self.slot_wf(self.proxies@[h].unwrap())
        &&& self.known_ok()
        &&& forall|q: int| 0 <= q < self.queues@.len() ==> nodup(#[trigger] self.queues@[q].known@)
        &&& self.flushed <= self.outbound@.len()
        &&& self.queues@.len() >= 1
    }

    /// The value of an optional liveness flag, with the stated default for
    /// the untracked (`None`) case; an out-of-range index reads as dead.
    pub open spec fn spec_flag(self, f: Option<usize>, dflt: bool) -> bool {
        match f {
            None => dflt,
            Some(i) => i < self.flags@.len() && self.flags@[i as int],
        }
    }

    /// Whether an id can send: its flag is not cleared (untracked ids pass),
    /// and it has a proxy handle that names an occupied slot.
    pub open spec fn spec_sender_ok(self, o: ObjectId) -> bool {
        &&& self.spec_flag(o.alive, true)
        &&& o.proxy is Some
        &&& o.proxy.unwrap() < self.proxies@.len()
        &&& self.proxies@[o.proxy.unwrap() as int] is Some
    }

    /// The effective protocol version of a sender: the root object is
    /// always version 1, every other object reports its proxy's version.
    pub open spec fn spec_version_of(self, o: ObjectId) -> u32
        recommends
            self.spec_sender_ok(o),
    {
        if o.id == 1 {
            1
        } else {
            self.proxies@[o.proxy.unwrap() as int].unwrap().version
        }
    }

    /// Executable flag read matching `spec_flag`.
    fn flag_value(&self, f: &Option<usize>, dflt: bool) -> (r: bool)
        ensures
            r == self.spec_flag(*f, dflt),
    {
        match f {
            None => dflt,
            Some(i) => *i < self.flags.len() && self.flags[*i],
        }
    }

    /// Open a connection whose singleton root object (wire id 1, version 1)
    /// carries the given display interface. The schema set is kept to
    /// resolve child interfaces by name. The socket itself belongs to the
    /// caller; this builds the bookkeeping state for it.
    pub fn connect(display: Interface, schema: Vec<Interface>) -> (r: Connection<D>)
        ensures
            r.wf(),
            r.schema == schema,
            r.flags@ =~= seq![true],
            r.proxies@.len() == 1,
            r.proxies@[0] is Some,
            r.proxies@[0].unwrap().wire_id == 1,
            r.proxies@[0].unwrap().version == 1,
            r.proxies@[0].unwrap().iface == display,
            r.proxies@[0].unwrap().flag == 0,
            r.proxies@[0].unwrap().data is None,
            r.proxies@[0].unwrap().queue == 0,
            r.queues@.len() == 1,
            r.queues@[0].known@ =~= Seq::<usize>::empty(),
            r.outbound@ =~= Seq::<WireMessage>::empty(),
            r.inbound@.len() == 0,
            r.flushed == 0,
            !r.prepared,
            r.next_wire_id == 2,
            r.reads@ == 0,
            r.cancels@ == 0,
            r.dispatch_passes@ == 0,
    {
        let mut flags: Vec<bool> = Vec::new();
        flags.push(true);
        let mut proxies: Vec<Option<ProxySlot<D>>> = Vec::new();
        proxies.push(
            Some(
                ProxySlot {
                    wire_id: 1,
                    version: 1,
                    iface: display,
                    flag: 0,
                    data: None,
                    queue: 0,
                },
            ),
        );
        let mut queues: Vec<QueueSlot> = Vec::new();
        queues.push(QueueSlot { known: Vec::new() });
        Connection {
            schema,
            flags,
            proxies,
            queues,
            outbound: Vec::new(),
            inbound: Vec::new(),
            flushed: 0,
            prepared: false,
            next_wire_id: 2,
            reads: Ghost(0),
            cancels: Ghost(0),
            dispatch_passes: Ghost(0),
        }
    }

    /// The identity of the connection's root object.
    pub fn display_id(&self) -> (r: ObjectId)
        requires
            self.proxies@.len() >= 1,
            self.proxies@[0] is Some,
        ensures
            r.proxy == Some(0usize),
            r.id == self.proxies@[0].unwrap().wire_id,
            r.iface@ == self.proxies@[0].unwrap().iface@,
            r.alive == Some(self.proxies@[0].unwrap().flag),
    {
        let slot = self.proxies[0].as_ref().unwrap();
        ObjectId {
            proxy: Some(0),
            id: slot.wire_id,
            iface: slot.iface.clone(),
            alive: Some(slot.flag),
        }
    }

    /// Force buffered outbound requests to the wire. In this model the
    /// transport always accepts them.
    pub fn flush(&mut self) -> (r: Result<(), Error>)
        requires
            old(self).wf(),
        ensures
            final(self).wf(),
            r is Ok,
            final(self).flushed == final(self).outbound@.len(),
            *final(self) == (Connection { flushed: final(self).flushed, ..*old(self) }),
    {
        self.flushed = self.outbound.len();
        Ok(())
    }

    /// Create an additional event queue sharing this connection.
    pub fn queue(&mut self) -> (r: Result<crate::wayland::event_loop::EventQueue, Error>)
        requires
            old(self).wf(),
        ensures
            final(self).wf(),
            r is Ok,
            r.unwrap().q == old(self).queues@.len(),
            final(self).queues@.len() == old(self).queues@.len() + 1,
            forall|i: int|
                0 <= i < old(self).queues@.len() ==> final(self).queues@[i] == old(
                    self,
                ).queues@[i],
            final(self).queues@.last().known@ =~= Seq::<usize>::empty(),
            *final(self) == (Connection { queues: final(self).queues, ..*old(self) }),
    {
        let q = self.queues.len();
        self.queues.push(QueueSlot { known: Vec::new() });
        proof {
            assert forall|qi: int, i: int|
                0 <= qi < self.queues@.len() && 0 <= i < self.queues@[qi].known@.len() implies {
                    let h = #[trigger] self.queues@[qi].known@[i] as int;
                    &&& h < self.proxies@.len()
                    &&& self.proxies@[h] is Some
                    &&& self.proxies@[h].unwrap().queue == qi
                } by {
                assert(qi < old(self).queues@.len());
                assert(self.queues@[qi] == old(self).queues@[qi]);
                assert(old(self).known_ok());
            }
            assert forall|qi: int|
                0 <= qi < self.queues@.len() implies nodup(
                #[trigger] self.queues@[qi].known@,
            ) by {
                if qi < old(self).queues@.len() {
                    assert(nodup(old(self).queues@[qi].known@));
                }
            }
        }
        Ok(crate::wayland::event_loop::EventQueue { q })
    }

    /// Report the interface and effective version of an object.
    ///
    /// Returns `InvalidId` exactly when the object is dead or has no proxy;
    /// otherwise the metadata carries the object's own interface and its
    /// effective version (1 for the root object).
    pub fn object_info(&self, id: ObjectId) -> (r: Result<ObjectMetadata, Error>)
        requires
            self.wf(),
        ensures
            match r {
                Ok(m) => {
                    &&& self.spec_sender_ok(id)
                    &&& m.iface@ == id.iface@
                    &&& m.id == id
                    &&& m.version == self.spec_version_of(id)
                },
                Err(e) => {
                    &&& !self.spec_sender_ok(id)
                    &&& e.kind == ErrorKind::InvalidId
                },
            },
    {
        if !self.flag_value(&id.alive, true) {
            return Err(ErrorKind::InvalidId.into_error());
        }
        let h = match id.proxy {
            Some(h) => h,
            None => {
                return Err(ErrorKind::InvalidId.into_error());
            },
        };
        if h >= self.proxies.len() {
            return Err(ErrorKind::InvalidId.into_error());
        }
        let slot = match self.proxies[h].as_ref() {
            Some(s) => s,
            None => {
                return Err(ErrorKind::InvalidId.into_error());
            },
        };
        let version = if id.id == 1 {
            1
        } else {
            slot.version
        };
        let iface = id.iface.clone();
        Ok(ObjectMetadata { iface, id, version })
    }

    /// Hand back a copy of the handler registered for an object, or `None`
    /// where only the placeholder is attached. Here an untracked liveness
    /// flag reads as dead, so the nil object is rejected.
    pub fn object_data(&self, id: ObjectId) -> (r: Result<Option<D>, Error>) where D: Clone
        requires
            self.wf(),
        ensures
            match r {
                Ok(d) => {
                    &&& self.spec_flag(id.alive, false)
                    &&& id.proxy is Some
                    &&& id.proxy.unwrap() < self.proxies@.len()
                    &&& self.proxies@[id.proxy.unwrap() as int] is Some
                    &&& (d is Some <==> self.proxies@[id.proxy.unwrap() as int].unwrap().data
                        is Some)
                },
                Err(e) => {
                    &&& !(self.spec_flag(id.alive, false) && id.proxy is Some
                        && id.proxy.unwrap() < self.proxies@.len()
                        && self.proxies@[id.proxy.unwrap() as int] is Some)
                    &&& e.kind == ErrorKind::InvalidId
                },
            },
    {
        if !self.flag_value(&id.alive, false) {
            return Err(ErrorKind::InvalidId.into_error());
        }
        let h = match id.proxy {
            Some(h) => h,
            None => {
                return Err(ErrorKind::InvalidId.into_error());
            },
        };
        if h >= self.proxies.len() {
            return Err(ErrorKind::InvalidId.into_error());
        }
        match self.proxies[h].as_ref() {
            Some(s) => Ok(s.data.clone()),
            None => Err(ErrorKind::InvalidId.into_error()),
        }
    }

    /// Whether an object's liveness flag is still set; the nil object and
    /// untracked (foreign) objects read as dead.
    pub fn is_alive(&self, id: &ObjectId) -> (r: bool)
        ensures
            r == self.spec_flag(id.alive, false),
    {
        self.flag_value(&id.alive, false)
    }

    /// The transport queues one inbound event for a later dispatch pass.
    pub fn enqueue_inbound(
        &mut self,
        proxy: usize,
        opcode: u16,
        args: Vec<crate::wayland::wire::NativeArg>,
    )
        requires
            old(self).wf(),
        ensures
            final(self).wf(),
            final(self).inbound@ =~= old(self).inbound@.push(
                InboundMessage { proxy, opcode, args },
            ),
            *final(self) == (Connection { inbound: final(self).inbound, ..*old(self) }),
    {
        self.inbound.push(InboundMessage { proxy, opcode, args });
    }
}

/// No handle occurs twice.
pub open spec fn nodup(s: Seq<usize>) -> bool {
    forall|i: int, j: int| #![trigger s[i], s[j]] 0 <= i < j < s.len() ==> s[i] != s[j]
}

/// Remove the first occurrence of a handle from a known-object list.
fn remove_known(known: &mut Vec<usize>, h: usize)
    requires
        nodup(old(known)@),
    ensures
        final(known)@ == old(known)@.remove_value(h),
        nodup(final(known)@),
        !final(known)@.contains(h),
        forall|x: usize| x != h ==> (final(known)@.contains(x) <==> old(known)@.contains(x)),
        forall|x: usize| final(known)@.contains(x) ==> old(known)@.contains(x),
{
    let ghost pre = known@;
    let mut j: usize = 0;
    while j < known.len()
        invariant
            pre == old(known)@,
            nodup(pre),
            j <= known@.len(),
            known@ == pre,
            forall|k: int| 0 <= k < j ==> pre[k] != h,
        decreases known@.len() - j,
    {
        if known[j] == h {
            known.remove(j);
            proof {
                pre.index_of_first_ensures(h);
                assert(pre.index_of_first(h) == Some(j as int));
                assert(known@ == pre.remove_value(h));
                let post = known@;
                assert forall|k: int|
                    0 <= k < post.len() implies #[trigger] post[k] == (if k < j {
                        pre[k]
                    } else {
                        pre[k + 1]
                    }) by {
                    assert(post == pre.subrange(0, j as int) + pre.subrange(
                        j as int + 1,
                        pre.len() as int,
                    ));
                    if k < j {
                        assert(post[k] == pre.subrange(0, j as int)[k]);
                    } else {
                        assert(post[k] == pre.subrange(j as int + 1, pre.len() as int)[k - j]);
                    }
                }
                assert forall|x: usize| post.contains(x) implies pre.contains(x) by {
                    let k = choose|k: int| 0 <= k < post.len() && post[k] == x;
                    if k < j {
                        assert(pre[k] == x);
                    } else {
                        assert(pre[k + 1] == x);
                    }
                }
                assert forall|k: int| 0 <= k < post.len() implies #[trigger] post[k] != h by {
                    if k < j {
                        assert(post[k] == pre[k]);
                    } else {
                        assert(post[k] == pre[k + 1]);
                        assert(nodup(pre));
                        assert(post.len() + 1 == pre.len());
                        assert(j + 1 <= k + 1);
                        assert(k + 1 < pre.len());
                        assert(pre[j as int] != pre[k + 1]);
                    }
                }
                assert(!post.contains(h));
                assert forall|x: usize| x != h && pre.contains(x) implies post.contains(x) by {
                    let k = choose|k: int| 0 <= k < pre.len() && pre[k] == x;
                    if k < j {
                        assert(post[k] == x);
                    } else {
                        assert(k != j);
                        assert(post[k - 1] == x);
                    }
                }
                assert forall|a: int, b: int|
                    0 <= a < b < post.len() implies #[trigger] post[a] != #[trigger] post[b] by {
                    let pa: int = if a < j { a } else { a + 1 };
                    let pb: int = if b < j { b } else { b + 1 };
                    assert(post[a] == pre[pa]);
                    assert(post[b] == pre[pb]);
                    assert(nodup(pre));
                    assert(post.len() + 1 == pre.len());
                    assert(0 <= pa);
                    assert(pa < pb);
                    assert(pb < pre.len());
                    assert(pre[pa] != pre[pb]);
                }
            }
            return ;
        }
        j = j + 1;
    }
    proof {
        pre.index_of_first_ensures(h);
        if pre.contains(h) {
            let k = choose|k: int| 0 <= k < pre.len() && pre[k] == h;
            assert(pre[k] != h);
        }
        assert(pre.index_of_first(h) is None);
    }
}

/// The message a request opcode names in an interface's request table, if
/// the opcode is within the table.
pub open spec fn lookup_request(iface: InterfaceView, opcode: u16) -> Option<MessageView> {
    if (opcode as int) < iface.requests.len() {
        Some(iface.requests[opcode as int])
    } else {
        None
    }
}

/// The message an event opcode names in an interface's event table, if the
/// opcode is within the table.
pub open spec fn lookup_event(iface: InterfaceView, opcode: u16) -> Option<MessageView> {
    if (opcode as int) < iface.events.len() {
        Some(iface.events[opcode as int])
    } else {
        None
    }
}

/// Whether a message signature contains a `new-id` slot.
pub open spec fn view_has_new(m: MessageView) -> bool {
    exists|i: int| 0 <= i < m.sig.len() && m.sig[i] == ArgKind::New
}

/// How many object-reference arguments occur strictly before a position.
pub open spec fn obj_count(args: Seq<Arg<ObjectId, i32>>, upto: int) -> int
    decreases upto,
{
    if upto <= 0 {
        0
    } else {
        obj_count(args, upto - 1) + (if args[upto - 1] is Object {
            1int
        } else {
            0int
        })
    }
}

/// The first interface of a sequence carrying the given name, if any.
pub open spec fn spec_find_interface(views: Seq<InterfaceView>, name: Seq<char>) -> Option<
    InterfaceView,
>
    decreases views.len(),
{
    if views.len() == 0 {
        None
    } else if views[0].name == name {
        Some(views[0])
    } else {
        spec_find_interface(views.drop_first(), name)
    }
}

/// An interface description holding nothing but a name, standing in for a
/// schema type the connection has no registered tables for.
pub open spec fn bare_interface(name: Seq<char>) -> InterfaceView {
    InterfaceView {
        name,
        version: 0,
        requests: Seq::empty(),
        events: Seq::empty(),
        raw_interface: None,
    }
}

/// The view of an explicit child-interface override.
pub open spec fn cs_view(cs: Option<(Interface, u32)>) -> Option<(InterfaceView, u32)> {
    match cs {
        Some((i, v)) => Some((i@, v)),
        None => None,
    }
}

impl<D: ObjectData> Connection<D> {
    /// Whether some argument strictly before position `i` references an
    /// object whose liveness flag is cleared (the encoder stops at the first
    /// such argument).
    pub open spec fn spec_dead_before(self, args: Seq<Arg<ObjectId, i32>>, i: int) -> bool {
        exists|j: int|
            0 <= j < i && ((#[trigger] args[j]) matches Arg::Object(o) && o.proxy is Some
                && !self.spec_flag(o.alive, true))
    }

    /// Whether any argument references a dead object.
    pub open spec fn spec_has_dead_object(self, args: Seq<Arg<ObjectId, i32>>) -> bool {
        self.spec_dead_before(args, args.len() as int)
    }

    /// The arguments violate no static schema rule the encoder treats as a
    /// local bug: at each object position that the encoder reaches, the
    /// message declares an expected interface, a live referenced object
    /// carries exactly that interface, and a null reference stands only in
    /// an explicitly nullable position.
    pub open spec fn spec_encodable(self, m: MessageView, args: Seq<Arg<ObjectId, i32>>) -> bool {
        forall|i: int|
            0 <= i < args.len() && (#[trigger] args[i]) is Object && !self.spec_dead_before(
                args,
                i,
            ) ==> {
                let o = args[i]->Object_0;
                &&& obj_count(args, i) < m.arg_interfaces.len()
                &&& (o.proxy is Some && self.spec_flag(o.alive, true) ==> o.iface.name@
                    == m.arg_interfaces[obj_count(args, i)])
                &&& (o.proxy is None ==> i < m.sig.len() && m.sig[i] == ArgKind::Object(true))
            }
    }

    /// The registered interface descriptions, as mathematical values.
    pub open spec fn schema_views(self) -> Seq<InterfaceView> {
        self.schema@.map_values(|i: Interface| i@)
    }

    /// The interface a schema-declared child name denotes: the registered
    /// description when the name is registered, a bare name otherwise.
    pub open spec fn spec_child_fallback(self, name: Seq<char>) -> InterfaceView {
        match spec_find_interface(self.schema_views(), name) {
            Some(i) => i,
            None => bare_interface(name),
        }
    }

    /// How a `new-id` argument resolves to one child interface and version:
    /// an explicit override is validated against the schema's declared child
    /// (name mismatch is `InvalidInterface`, version different from the
    /// sender's effective version is `InvalidId`); with no override the
    /// schema's declared child is taken at the sender's version; a message
    /// that constructs an object but declares no child and gets no override
    /// is `InvalidId`. A message without a `new-id` slot resolves to no
    /// child at all.
    pub open spec fn spec_resolve_child(
        self,
        m: MessageView,
        cs: Option<(InterfaceView, u32)>,
        parent_version: u32,
    ) -> Result<Option<(InterfaceView, u32)>, ErrorKind> {
        if !view_has_new(m) {
            Ok(None)
        } else {
            match cs {
                Some((iface, version)) => match m.child {
                    Some(cname) => if cname != iface.name {
                        Err(ErrorKind::InvalidInterface)
                    } else if version != parent_version {
                        Err(ErrorKind::InvalidId)
                    } else {
                        Ok(Some((iface, version)))
                    },
                    None => Ok(Some((iface, version))),
                },
                None => match m.child {
                    Some(cname) => Ok(Some((self.spec_child_fallback(cname), parent_version))),
                    None => Err(ErrorKind::InvalidId),
                },
            }
        }
    }

    /// What a caller of `send_message` must guarantee so that no static
    /// schema rule is violated: the arguments are encodable against the
    /// message, and whenever a child object will actually be created, a
    /// handler is supplied (`has_data`). Inputs the algorithm rejects with
    /// an error before reaching these points are unconstrained.
    pub open spec fn spec_send_precond(
        self,
        sender: ObjectId,
        opcode: u16,
        args: Seq<Arg<ObjectId, i32>>,
        cs: Option<(InterfaceView, u32)>,
        has_data: bool,
    ) -> bool {
        match lookup_request(sender.iface@, opcode) {
            None => true,
            Some(m) => self.spec_sender_ok(sender) ==> {
                let rc = self.spec_resolve_child(m, cs, self.spec_version_of(sender));
                &&& self.spec_encodable(m, args)
                &&& ((rc is Ok && rc.unwrap() is Some && !self.spec_has_dead_object(args))
                    ==> has_data)
            },
        }
    }

    /// Which error `send_message` reports, if any: an unknown opcode is
    /// `Other`; a dead or proxy-less sender is `InvalidId`; then child
    /// resolution may fail; then a dead referenced object is `SubmitError`.
    pub open spec fn spec_send_err(
        self,
        sender: ObjectId,
        opcode: u16,
        args: Seq<Arg<ObjectId, i32>>,
        cs: Option<(InterfaceView, u32)>,
    ) -> Option<ErrorKind> {
        match lookup_request(sender.iface@, opcode) {
            None => Some(ErrorKind::Other),
            Some(m) => if !self.spec_sender_ok(sender) {
                Some(ErrorKind::InvalidId)
            } else {
                match self.spec_resolve_child(m, cs, self.spec_version_of(sender)) {
                    Err(k) => Some(k),
                    Ok(_) => if self.spec_has_dead_object(args) {
                        Some(ErrorKind::SubmitError)
                    } else {
                        None
                    },
                }
            },
        }
    }

    /// A queue's known-object list after a successful send: the created
    /// child (the next free handle) joins the primary queue, and a
    /// destructor removes the sender from its owning queue.
    pub open spec fn spec_known_after(
        pre: Self,
        q: int,
        child: bool,
        destr: bool,
        sh: int,
        squeue: int,
    ) -> Seq<usize> {
        let base = pre.queues@[q].known@;
        let mid = if child && q == 0 {
            base.push(pre.proxies@.len() as usize)
        } else {
            base
        };
        if destr && q == squeue {
            mid.remove_value(sh as usize)
        } else {
            mid
        }
    }

    /// The state transition of a successful send: exactly one message is
    /// appended to the outbound buffer, carrying the encoded arguments; a
    /// resolved child interface yields one fresh proxy slot, flag and wire
    /// id and the returned id names it (otherwise the nil id is returned);
    /// a destructor clears the sender's flag, detaches and frees its slot
    /// and removes it from its queue's known set; nothing else changes.
    pub open spec fn spec_send_ok(
        pre: Self,
        post: Self,
        sender: ObjectId,
        opcode: u16,
        args: Seq<Arg<ObjectId, i32>>,
        data: Option<D>,
        rc: Option<(InterfaceView, u32)>,
        m: MessageView,
        oid: ObjectId,
    ) -> bool {
        let sh = sender.proxy.unwrap() as int;
        let squeue = pre.proxies@[sh].unwrap().queue as int;
        let destr = m.is_destructor;
        let hnew = pre.proxies@.len() as int;
        let fnew = pre.flags@.len() as int;
        &&& post.outbound@.len() == pre.outbound@.len() + 1
        &&& (forall|i: int|
            0 <= i < pre.outbound@.len() ==> #[trigger] post.outbound@[i] == pre.outbound@[i])
        &&& post.outbound@.last().sender == sender.id
        &&& post.outbound@.last().opcode == opcode
        &&& post.outbound@.last().args@ == encode_args_view(args)
        &&& match rc {
            None => {
                &&& oid.spec_is_null()
                &&& post.proxies@.len() == pre.proxies@.len()
                &&& post.next_wire_id == pre.next_wire_id
                &&& post.flags@.len() == pre.flags@.len()
            },
            Some((ci, cv)) => {
                &&& oid.proxy == Some(hnew as usize)
                &&& oid.id == pre.next_wire_id
                &&& oid.iface@ == ci
                &&& oid.alive == Some(fnew as usize)
                &&& post.proxies@.len() == pre.proxies@.len() + 1
                &&& post.proxies@[hnew] is Some
                &&& post.proxies@[hnew].unwrap().wire_id == pre.next_wire_id
                &&& post.proxies@[hnew].unwrap().version == cv
                &&& post.proxies@[hnew].unwrap().iface@ == ci
                &&& post.proxies@[hnew].unwrap().data == data
                &&& post.proxies@[hnew].unwrap().flag == fnew
                &&& post.proxies@[hnew].unwrap().queue == 0
                &&& post.flags@.len() == pre.flags@.len() + 1
                &&& post.flags@.last() == true
                &&& post.next_wire_id == if pre.next_wire_id < u32::MAX {
                    (pre.next_wire_id + 1) as u32
                } else {
                    pre.next_wire_id
                }
            },
        }
        &&& (forall|f: int|
            0 <= f < pre.flags@.len() ==> #[trigger] post.flags@[f] == if destr && sender.alive
                is Some && sender.alive.unwrap() == f {
                false
            } else {
                pre.flags@[f]
            })
        &&& (forall|h: int|
            0 <= h < pre.proxies@.len() && h != sh ==> #[trigger] post.proxies@[h]
                == pre.proxies@[h])
        &&& (destr ==> post.proxies@[sh] is None)
        &&& (!destr ==> post.proxies@[sh] == pre.proxies@[sh])
        &&& post.queues@.len() == pre.queues@.len()
        &&& (forall|q: int|
            0 <= q < pre.queues@.len() ==> #[trigger] post.queues@[q].known@
                == Self::spec_known_after(pre, q, rc is Some, destr, sh, squeue))
        &&& post.schema == pre.schema
        &&& post.inbound == pre.inbound
        &&& post.flushed == pre.flushed
        &&& post.prepared == pre.prepared
        &&& post.reads == pre.reads
        &&& post.cancels == pre.cancels
        &&& post.dispatch_passes == pre.dispatch_passes
    }
}

/// Stepping a first-match scan one position forward keeps its result, as
/// long as the position scanned past did not match.
proof fn lemma_find_step(views: Seq<InterfaceView>, name: Seq<char>, i: int)
    requires
        0 <= i < views.len(),
        views[i].name != name,
        spec_find_interface(views, name) == spec_find_interface(views.skip(i), name),
    ensures
        spec_find_interface(views, name) == spec_find_interface(views.skip(i + 1), name),
{
    assert(views.skip(i).drop_first() =~= views.skip(i + 1));
    assert(views.skip(i)[0] == views[i]);
}

/// At most every argument before a position is an object reference.
proof fn lemma_obj_count_bound(args: Seq<Arg<ObjectId, i32>>, i: int)
    requires
        0 <= i <= args.len(),
    ensures
        0 <= obj_count(args, i) <= i,
    decreases i,
{
    if i > 0 {
        lemma_obj_count_bound(args, i - 1);
    }
}

/// Whether a signature contains a `new-id` slot.
fn has_new_arg(sig: &Vec<ArgKind>) -> (r: bool)
    ensures
        r == exists|i: int| 0 <= i < sig@.len() && sig@[i] == ArgKind::New,
{
    let mut k: usize = 0;
    #[verifier::loop_isolation(false)]
    while k < sig.len()
        invariant
            k <= sig@.len(),
            forall|i: int| 0 <= i < k ==> sig@[i] != ArgKind::New,
        decreases sig@.len() - k,
    {
        if sig[k] == ArgKind::New {
            return true;
        }
        k = k + 1;
    }
    false
}

impl<D: ObjectData> Connection<D> {
    /// Look an interface up in the registered schema by name, first match.
    fn find_interface(&self, name: &String) -> (r: Option<Interface>)
        ensures
            match r {
                Some(i) => spec_find_interface(self.schema_views(), name@) == Some(i@),
                None => spec_find_interface(self.schema_views(), name@) is None,
            },
    {
        let ghost views = self.schema_views();
        let mut k: usize = 0;
        proof {
            assert(views.skip(0) =~= views);
        }
        #[verifier::loop_isolation(false)]
        while k < self.schema.len()
            invariant
                k <= views.len(),
                spec_find_interface(views, name@) == spec_find_interface(
                    views.skip(k as int),
                    name@,
                ),
            decreases views.len() - k,
        {
            if self.schema[k].name == *name {
                let found = self.schema[k].clone();
                proof {
                    assert(views.skip(k as int)[0] == views[k as int]);
                    assert(views[k as int] == self.schema@[k as int]@);
                    assert(spec_find_interface(views.skip(k as int), name@) == Some(
                        views[k as int],
                    ));
                }
                return Some(found);
            }
            proof {
                assert(views[k as int] == self.schema@[k as int]@);
                lemma_find_step(views, name@, k as int);
            }
            k = k + 1;
        }
        proof {
            assert(views.skip(k as int) =~= Seq::<InterfaceView>::empty());
        }
        None
    }
}

impl<D: ObjectData> Connection<D> {
    /// Validate and marshal one request: look the message up by opcode in
    /// the sender's interface, reject a dead or unknown sender with
    /// `InvalidId`, resolve the child interface and version of a `new-id`
    /// argument (explicit override validated against the schema, fall back
    /// to the schema's declared child at the sender's effective version),
    /// encode every argument into a native slot, append the marshalled
    /// message to the outbound buffer, register a created child object on
    /// the primary queue, and, for a destructor message, clear the sender's
    /// liveness flag, notify and detach its handler, remove it from its
    /// queue's known-object set and free its proxy — all of it, or on error
    /// nothing at all.
    #[verifier::loop_isolation(false)]
    #[verifier::rlimit(60)]
    pub fn send_message(
        &mut self,
        message: Event<ObjectId, i32>,
        data: Option<D>,
        child_spec: Option<(Interface, u32)>,
    ) -> (r: Result<ObjectId, Error>)
        requires
            old(self).wf(),
            old(self).spec_send_precond(
                message.sender,
                message.opcode,
                message.args@,
                cs_view(child_spec),
                data is Some,
            ),
        ensures
            final(self).wf(),
            flags_monotone(old(self).flags@, final(self).flags@),
            ({
                let sender = message.sender;
                let opcode = message.opcode;
                let args = message.args@;
                let cs = cs_view(child_spec);
                match r {
                    Err(e) => *final(self) == *old(self) && old(self).spec_send_err(
                        sender,
                        opcode,
                        args,
                        cs,
                    ) == Some(e.kind),
                    Ok(oid) => {
                        &&& old(self).spec_send_err(sender, opcode, args, cs) is None
                        &&& Self::spec_send_ok(
                            *old(self),
                            *final(self),
                            sender,
                            opcode,
                            args,
                            data,
                            old(self).spec_resolve_child(
                                lookup_request(sender.iface@, opcode).unwrap(),
                                cs,
                                old(self).spec_version_of(sender),
                            ).unwrap(),
                            lookup_request(sender.iface@, opcode).unwrap(),
                            oid,
                        )
                    },
                }
            }),
    {
        let ghost csv = cs_view(child_spec);
        let Event { sender, opcode, args } = message;
        let ghost argsv = args@;
        // 1. look the message up by opcode in the sender's request table
        if (opcode as usize) >= sender.iface.requests.len() {
            return Err(Error::new(ErrorKind::Other));
        }
        let msg = sender.iface.requests[opcode as usize].clone();
        proof {
            assert(msg@ == lookup_request(sender.iface@, opcode).unwrap());
        }
        let ghost msgv = msg@;
        // 2. reject a dead or proxy-less sender
        if !self.flag_value(&sender.alive, true) {
            return Err(Error::new(ErrorKind::InvalidId));
        }
        let h = match sender.proxy {
            Some(h) => h,
            None => {
                return Err(Error::new(ErrorKind::InvalidId));
            },
        };
        if h >= self.proxies.len() {
            return Err(Error::new(ErrorKind::InvalidId));
        }
        let (sender_version, sender_queue) = match self.proxies[h].as_ref() {
            Some(s) => (s.version, s.queue),
            None => {
                return Err(Error::new(ErrorKind::InvalidId));
            },
        };
        proof {
            assert(self.spec_sender_ok(sender));
        }
        // 3. the sender's effective version
        let parent_version = if sender.id == 1 {
            1
        } else {
            sender_version
        };
        proof {
            assert(parent_version == self.spec_version_of(sender));
        }
        // 4. resolve the child interface and version
        let has_new = has_new_arg(&msg.sig);
        proof {
            assert(has_new == view_has_new(msgv));
        }
        let resolved: Option<(Interface, u32)> = if has_new {
            match child_spec {
                Some((iface, version)) => {
                    match msg.child.as_ref() {
                        Some(child_name) => {
                            if !(iface.name == *child_name) {
                                proof {
                                    assert(self.spec_resolve_child(msgv, csv, parent_version)
                                        == Err::<Option<(InterfaceView, u32)>, ErrorKind>(
                                        ErrorKind::InvalidInterface,
                                    ));
                                }
                                return Err(Error::new(ErrorKind::InvalidInterface));
                            }
                            if version != parent_version {
                                return Err(Error::new(ErrorKind::InvalidId));
                            }
                            Some((iface, version))
                        },
                        None => Some((iface, version)),
                    }
                },
                None => {
                    match msg.child.as_ref() {
                        Some(child_name) => {
                            let ci = match self.find_interface(child_name) {
                                Some(c) => c,
                                None => {
                                    let bare = Interface {
                                        name: child_name.clone(),
                                        version: 0,
                                        requests: Vec::new(),
                                        events: Vec::new(),
                                        raw_interface: None,
                                    };
                                    proof {
                                        assert(bare@.requests =~= Seq::<MessageView>::empty());
                                        assert(bare@.events =~= Seq::<MessageView>::empty());
                                        assert(bare@ == bare_interface(child_name@));
                                    }
                                    bare
                                },
                            };
                            proof {
                                assert(ci@ == self.spec_child_fallback(child_name@));
                            }
                            Some((ci, parent_version))
                        },
                        None => {
                            return Err(Error::new(ErrorKind::InvalidId));
                        },
                    }
                },
            }
        } else {
            None
        };
        let ghost rcv = cs_view(resolved);
        proof {
            assert(self.spec_resolve_child(msgv, csv, parent_version) == Ok::<
                Option<(InterfaceView, u32)>,
                ErrorKind,
            >(rcv));
        }
        // 5. encode each argument into a native slot, checking object
        //    arguments for liveness and declared interface
        let mut rest = args;
        let arg_count = rest.len();
        let mut slots: Vec<NativeArg> = Vec::new();
        let mut i: usize = 0;
        let mut oc: usize = 0;
        proof {
            assert(argsv.len() == arg_count);
            assert(rest@ =~= argsv.skip(0));
            assert(argsv.subrange(0, 0) =~= Seq::<Arg<ObjectId, i32>>::empty());
            assert(slots@ =~= encode_args_view(argsv.subrange(0, 0)));
        }
        while rest.len() > 0
            invariant
                argsv.len() == arg_count,
                i + rest@.len() == argsv.len(),
                rest@ == argsv.skip(i as int),
                slots@ == encode_args_view(argsv.subrange(0, i as int)),
                oc == obj_count(argsv, i as int),
                forall|j: int|
                    0 <= j < i ==> !((#[trigger] argsv[j]) matches Arg::Object(o) && o.proxy
                        is Some && !self.spec_flag(o.alive, true)),
            decreases rest@.len(),
        {
            let a = rest.remove(0);
            proof {
                assert(argsv.skip(i as int)[0] == argsv[i as int]);
                assert(a == argsv[i as int]);
                assert(argsv.skip(i as int).remove(0) =~= argsv.skip(i as int + 1));
            }
            match a {
                Arg::Int(v) => slots.push(NativeArg::Int(v)),
                Arg::Uint(v) => slots.push(NativeArg::Uint(v)),
                Arg::Fixed(v) => slots.push(NativeArg::Fixed(v)),
                Arg::Str(sv) => slots.push(NativeArg::Str(sv)),
                Arg::Array(bytes) => slots.push(NativeArg::Array(bytes)),
                Arg::Fd(fd) => slots.push(NativeArg::Fd(fd)),
                Arg::New(_) => slots.push(NativeArg::NewId(0)),
                Arg::Object(o) => {
                    proof {
                        assert(!self.spec_dead_before(argsv, i as int));
                        assert(argsv[i as int] is Object);
                        assert(argsv[i as int]->Object_0 == o);
                    }
                    match o.proxy {
                        Some(_) => {
                            if !self.flag_value(&o.alive, true) {
                                proof {
                                    assert(self.spec_dead_before(argsv, argsv.len() as int));
                                    assert(self.spec_send_err(sender, opcode, argsv, csv)
                                        == Some(ErrorKind::SubmitError));
                                }
                                return Err(Error::new(ErrorKind::SubmitError));
                            }
                            proof {
                                assert(oc < msg.arg_interfaces@.len());
                            }
                            if !(o.iface.name == msg.arg_interfaces[oc]) {
                                proof {
                                    assert(msgv.arg_interfaces[oc as int]
                                        == msg.arg_interfaces@[oc as int]@);
                                    assert(false);
                                }
                                return vstd::pervasive::unreached();
                            }
                            slots.push(NativeArg::Object(o.proxy));
                        },
                        None => {
                            if !(i < msg.sig.len() && msg.sig[i] == ArgKind::Object(true)) {
                                proof {
                                    assert(false);
                                }
                                return vstd::pervasive::unreached();
                            }
                            slots.push(NativeArg::Object(None));
                        },
                    }
                    proof {
                        lemma_obj_count_bound(argsv, i as int);
                    }
                    oc = oc + 1;
                },
            }
            proof {
                assert(argsv.subrange(0, i as int + 1) =~= argsv.subrange(0, i as int).push(
                    argsv[i as int],
                ));
                assert(encode_args_view(argsv.subrange(0, i as int + 1)) =~= encode_args_view(
                    argsv.subrange(0, i as int),
                ).push(spec_encode_arg(argsv[i as int])));
            }
            i = i + 1;
        }
        proof {
            assert(i == argsv.len());
            assert(!self.spec_has_dead_object(argsv));
            assert(argsv.subrange(0, i as int) =~= argsv);
            assert(slots@ == encode_args_view(argsv));
            assert(self.spec_send_err(sender, opcode, argsv, csv) is None);
        }
        let ghost pre = *self;
        // 6. hand the marshalled message to the transport
        self.outbound.push(WireMessage { sender: sender.id, opcode, args: slots });
        // 7. register the created child object, if any, on the primary queue
        let ret = match resolved {
            Some((ci, cv)) => {
                let d = match data {
                    Some(d) => d,
                    None => vstd::pervasive::unreached(),
                };
                let hh = self.proxies.len();
                let ff = self.flags.len();
                let wid = self.next_wire_id;
                let oid = ObjectId { proxy: Some(hh), id: wid, iface: ci.clone(), alive: Some(ff) };
                self.flags.push(true);
                self.proxies.push(
                    Some(
                        ProxySlot {
                            wire_id: wid,
                            version: cv,
                            iface: ci,
                            flag: ff,
                            data: Some(d),
                            queue: 0,
                        },
                    ),
                );
                if self.next_wire_id < u32::MAX {
                    self.next_wire_id = self.next_wire_id + 1;
                }
                let q0 = &mut self.queues[0];
                q0.known.push(hh);
                oid
            },
            None => ObjectId::nil(),
        };
        // 8. destructor teardown: clear the flag, notify and detach the
        //    handler, remove the sender from its queue, free its proxy
        if msg.is_destructor {
            match sender.alive {
                Some(f) => {
                    self.flags[f] = false;
                    let mut slot_opt: Option<ProxySlot<D>> = None;
                    let slot_ref = &mut self.proxies[h];
                    core::mem::swap(&mut slot_opt, slot_ref);
                    match slot_opt {
                        Some(slot) => match slot.data {
                            Some(dd) => dd.on_destruction(sender.clone()),
                            None => {},
                        },
                        None => {},
                    }
                },
                None => {
                    let mut slot_opt: Option<ProxySlot<D>> = None;
                    let slot_ref = &mut self.proxies[h];
                    core::mem::swap(&mut slot_opt, slot_ref);
                },
            }
            proof {
                assert(nodup(self.queues@[sender_queue as int].known@));
            }
            let sq = &mut self.queues[sender_queue];
            remove_known(&mut sq.known, h);
        }
        proof {
            let post = *self;
            let sh = h as int;
            let squeue = sender_queue as int;
            let destr = msgv.is_destructor;
            let child = rcv is Some;
            let hnew = pre.proxies@.len() as int;
            // the outbound buffer grew by exactly the marshalled message
            assert(post.outbound@.len() == pre.outbound@.len() + 1);
            assert(post.outbound@.last().args@ == encode_args_view(argsv));
            // flags: one fresh true flag for a child, the sender's flag
            // cleared by a destructor, everything else untouched
            assert forall|f: int| 0 <= f < pre.flags@.len() implies #[trigger] post.flags@[f]
                == (if destr && sender.alive is Some && sender.alive.unwrap() == f {
                false
            } else {
                pre.flags@[f]
            }) by {
                let base: Seq<bool> = if child {
                    pre.flags@.push(true)
                } else {
                    pre.flags@
                };
                if destr {
                    match sender.alive {
                        Some(f0) => {
                            assert(post.flags@ == base.update(f0 as int, false));
                        },
                        None => {
                            assert(post.flags@ == base);
                        },
                    }
                } else {
                    assert(post.flags@ == base);
                }
            }
            // proxies: a fresh slot for a child, the sender's slot freed by
            // a destructor, everything else untouched
            assert forall|hx: int|
                0 <= hx < pre.proxies@.len() && hx != sh implies #[trigger] post.proxies@[hx]
                == pre.proxies@[hx] by {}
            // known sets transform per queue
            assert forall|q: int| 0 <= q < pre.queues@.len() implies #[trigger] post.queues@[
                q
            ].known@ == Self::spec_known_after(pre, q, child, destr, sh, squeue) by {
                if child && q == 0 {
                    assert(pre.queues@[q].known@.push(hnew as usize) =~= if destr && q == squeue {
                        old(self).queues@[q].known@.push(hnew as usize)
                    } else {
                        post.queues@[q].known@
                    });
                }
            }
            assert(Self::spec_send_ok(pre, post, sender, opcode, argsv, data, rcv, msgv, ret));
            // the invariant is preserved
            assert forall|hx: int|
                0 <= hx < post.proxies@.len() && (#[trigger] post.proxies@[hx])
                    is Some implies post.slot_wf(post.proxies@[hx].unwrap()) by {
                if hx < pre.proxies@.len() && hx != sh {
                    assert(pre.slot_wf(pre.proxies@[hx].unwrap()));
                }
            }
            assert forall|q: int, ix: int|
                0 <= q < post.queues@.len() && 0 <= ix < post.queues@[q].known@.len() implies {
                    let hk = #[trigger] post.queues@[q].known@[ix] as int;
                    &&& hk < post.proxies@.len()
                    &&& post.proxies@[hk] is Some
                    &&& post.proxies@[hk].unwrap().queue == q
                } by {
                let kn = post.queues@[q].known@;
                let hk = kn[ix];
                if destr && q == squeue {
                    assert(!kn.contains(h));
                    assert(kn.contains(hk));
                    assert(hk != h);
                }
                if child && q == 0 && ix == kn.len() - 1 && kn[ix] == hnew as usize {
                    assert(post.proxies@[hnew] is Some);
                } else {
                    if pre.queues@[q].known@.contains(hk) {
                        let j = choose|j: int|
                            0 <= j < pre.queues@[q].known@.len() && pre.queues@[q].known@[j] == hk;
                        assert(pre.known_ok());
                        assert(pre.proxies@[hk as int] is Some);
                        assert(pre.proxies@[hk as int].unwrap().queue == q);
                    }
                }
            }
            assert forall|q: int|
                0 <= q < post.queues@.len() implies nodup(#[trigger] post.queues@[q].known@) by {
                assert(nodup(pre.queues@[q].known@));
                if child && q == 0 {
                    let kn0 = pre.queues@[q].known@;
                    let kn1 = kn0.push(hnew as usize);
                    assert forall|a: int, b: int|
                        #![trigger kn1[a], kn1[b]]
                        0 <= a < b < kn1.len() implies kn1[a] != kn1[b] by {
                        if b < kn0.len() {
                            assert(kn1[a] == kn0[a] && kn1[b] == kn0[b]);
                        } else {
                            assert(kn1[b] == hnew as usize);
                            assert(kn1[a] == kn0[a]);
                            assert(pre.known_ok());
                            assert(kn0[a] < pre.proxies@.len());
                        }
                    }
                    assert(nodup(kn1));
                }
            }
            assert(post.wf());
            assert(flags_monotone(old(self).flags@, post.flags@));
        }
        Ok(ret)
    }
}

/// How many object-reference positions a signature has strictly before a
/// position (each consumes one declared argument interface).
pub open spec fn obj_count_sig(sig: Seq<ArgKind>, upto: int) -> int
    decreases upto,
{
    if upto <= 0 {
        0
    } else {
        obj_count_sig(sig, upto - 1) + (if sig[upto - 1] matches ArgKind::Object(_) {
            1int
        } else {
            0int
        })
    }
}

/// The interface name the schema declares for the object argument at a
/// position, or the anonymous placeholder where the table runs short.
pub open spec fn declared_iface_name(m: MessageView, i: int) -> Seq<char> {
    let c = obj_count_sig(m.sig, i);
    if c < m.arg_interfaces.len() {
        m.arg_interfaces[c]
    } else {
        "<anonymous>"@
    }
}

/// A signature carries at most one `new-id` slot (invariant of the schema:
/// a message resolves to exactly one child interface and version).
pub open spec fn one_new(sig: Seq<ArgKind>) -> bool {
    forall|i: int, j: int|
        #![trigger sig[i], sig[j]]
        0 <= i < j < sig.len() ==> !(sig[i] == ArgKind::New && sig[j] == ArgKind::New)
}

impl<D: ObjectData> Connection<D> {
    /// Whether a proxy handle names an occupied slot.
    pub open spec fn spec_dispatch_target_ok(self, proxy: int) -> bool {
        0 <= proxy < self.proxies@.len() && self.proxies@[proxy] is Some
    }

    /// One native slot fits the shape the signature declares at a position:
    /// primitive kinds need the matching slot variant, a non-nullable string
    /// must be present, an object slot must carry an object reference (and a
    /// reference the connection manages must carry the declared interface),
    /// and a `new-id` slot is either a wire id or the null object.
    pub open spec fn spec_slot_ok(self, m: MessageView, slots: Seq<NativeArg>, i: int) -> bool {
        match m.sig[i] {
            ArgKind::Object(_) => match slots[i] {
                NativeArg::Object(oh) => match oh {
                    Some(hx) => (hx < self.proxies@.len() && self.proxies@[hx as int] is Some)
                        ==> self.proxies@[hx as int].unwrap().iface.name@ == declared_iface_name(
                        m,
                        i,
                    ),
                    None => true,
                },
                _ => false,
            },
            ArgKind::New => slots[i] is NewId || (slots[i] matches NativeArg::Object(oh) && oh
                is None),
            _ => spec_decode_value(m.sig[i], slots[i]) is Some,
        }
    }

    /// A native argument array decodes against a message: it is long enough,
    /// the signature constructs at most one object, and every position fits.
    pub open spec fn spec_decodable(self, m: MessageView, slots: Seq<NativeArg>) -> bool {
        &&& m.sig.len() <= slots.len()
        &&& one_new(m.sig)
        &&& forall|i: int| #![trigger m.sig[i]] 0 <= i < m.sig.len() ==> self.spec_slot_ok(m, slots, i)
    }

    /// Whether decoding this message actually constructs a new object (a
    /// `new-id` slot carrying a wire id rather than the null object).
    pub open spec fn spec_creates(m: MessageView, slots: Seq<NativeArg>) -> bool {
        exists|i: int|
            #![trigger m.sig[i]]
            0 <= i < m.sig.len() && m.sig[i] == ArgKind::New && slots[i] is NewId
    }

    /// The wire id the constructed object arrives with.
    pub open spec fn spec_new_wid(m: MessageView, slots: Seq<NativeArg>) -> u32 {
        let i = choose|i: int|
            0 <= i < m.sig.len() && m.sig[i] == ArgKind::New && (#[trigger] slots[i]) is NewId;
        slots[i]->NewId_0
    }

    /// The interface a constructed object gets: the message's declared child
    /// resolved against the schema registry, or the anonymous placeholder.
    pub open spec fn spec_child_iface_of(self, m: MessageView) -> InterfaceView {
        match m.child {
            Some(n) => self.spec_child_fallback(n),
            None => bare_interface("<anonymous>"@),
        }
    }

    /// Which error `decode_event` reports, if any: an unknown proxy handle
    /// is `InvalidId`; an opcode beyond the interface's event table is
    /// `DispatchError` (never an out-of-bounds read); a native argument
    /// array that does not fit the signature is `SubmitError`.
    pub open spec fn spec_decode_err(
        self,
        proxy: int,
        opcode: u16,
        slots: Seq<NativeArg>,
    ) -> Option<ErrorKind> {
        if !self.spec_dispatch_target_ok(proxy) {
            Some(ErrorKind::InvalidId)
        } else {
            match lookup_event(self.proxies@[proxy].unwrap().iface@, opcode) {
                None => Some(ErrorKind::DispatchError),
                Some(m) => if !self.spec_decodable(m, slots) {
                    Some(ErrorKind::SubmitError)
                } else {
                    None
                },
            }
        }
    }

    /// What one decoded argument is: primitive kinds copy the slot's value;
    /// a null object reference decodes to the nil sentinel; a reference the
    /// connection manages reuses its tracked identity, interface and
    /// liveness; an unmanaged reference is foreign and carries only the
    /// declared interface name and no liveness; a constructed object gets
    /// the next free handle, a fresh liveness flag and the declared child
    /// interface.
    pub open spec fn spec_decoded_arg(
        pre: Self,
        m: MessageView,
        slots: Seq<NativeArg>,
        i: int,
        a: Arg<ObjectId, i32>,
    ) -> bool {
        match m.sig[i] {
            ArgKind::Object(_) => match slots[i] {
                NativeArg::Object(oh) => match oh {
                    Some(hx) => if hx < pre.proxies@.len() && pre.proxies@[hx as int] is Some {
                        let s = pre.proxies@[hx as int].unwrap();
                        a matches Arg::Object(o) && o.proxy == Some(hx) && o.id == s.wire_id
                            && o.alive == Some(s.flag) && o.iface@ == s.iface@
                    } else {
                        a matches Arg::Object(o) && o.proxy == Some(hx) && o.id == 0 && o.alive
                            is None && o.iface@ == bare_interface(declared_iface_name(m, i))
                    },
                    None => a matches Arg::Object(o) && o.spec_is_null(),
                },
                _ => false,
            },
            ArgKind::New => match slots[i] {
                NativeArg::NewId(wid) => a matches Arg::New(o) && o.proxy == Some(
                    pre.proxies@.len() as usize,
                ) && o.id == wid && o.alive == Some(pre.flags@.len() as usize) && o.iface@
                    == pre.spec_child_iface_of(m),
                NativeArg::Object(oh) => oh is None && (a matches Arg::Object(o)
                    && o.spec_is_null()),
                _ => false,
            },
            _ => Some(a) == spec_decode_value(m.sig[i], slots[i]),
        }
    }

    /// The result of a successful decode: the event names the target object
    /// as its sender, carries one decoded argument per signature position,
    /// and reports the handle of the object it constructed, if any; exactly
    /// that object was added to the arena (with a placeholder handler, on
    /// the sender's queue) and to the sender's queue's known set, and
    /// nothing else changed.
    pub open spec fn spec_decode_ok(
        pre: Self,
        post: Self,
        proxy: int,
        opcode: u16,
        slots: Seq<NativeArg>,
        ev: Event<ObjectId, i32>,
        created: Option<usize>,
    ) -> bool {
        let s = pre.proxies@[proxy].unwrap();
        let m = lookup_event(s.iface@, opcode).unwrap();
        let creates = Self::spec_creates(m, slots);
        let hnew = pre.proxies@.len() as int;
        &&& ev.opcode == opcode
        &&& ev.sender.proxy == Some(proxy as usize)
        &&& ev.sender.id == s.wire_id
        &&& ev.sender.alive == Some(s.flag)
        &&& ev.sender.iface@ == s.iface@
        &&& ev.args@.len() == m.sig.len()
        &&& (forall|i: int|
            0 <= i < m.sig.len() ==> Self::spec_decoded_arg(pre, m, slots, i, #[trigger] ev.args@[i]))
        &&& created == if creates {
            Some(pre.proxies@.len() as usize)
        } else {
            None::<usize>
        }
        &&& if creates {
            &&& post.proxies@.len() == pre.proxies@.len() + 1
            &&& (forall|h: int|
                0 <= h < pre.proxies@.len() ==> #[trigger] post.proxies@[h] == pre.proxies@[h])
            &&& post.proxies@[hnew] is Some
            &&& post.proxies@[hnew].unwrap().wire_id == Self::spec_new_wid(m, slots)
            &&& post.proxies@[hnew].unwrap().version == s.version
            &&& post.proxies@[hnew].unwrap().iface@ == pre.spec_child_iface_of(m)
            &&& post.proxies@[hnew].unwrap().flag == pre.flags@.len()
            &&& post.proxies@[hnew].unwrap().data is None
            &&& post.proxies@[hnew].unwrap().queue == s.queue
            &&& post.flags@ == pre.flags@.push(true)
            &&& post.queues@.len() == pre.queues@.len()
            &&& (forall|q: int|
                0 <= q < pre.queues@.len() && q != s.queue ==> #[trigger] post.queues@[q]
                    == pre.queues@[q])
            &&& post.queues@[s.queue as int].known@ == pre.queues@[s.queue as int].known@.push(
                hnew as usize,
            )
            &&& post.schema == pre.schema
            &&& post.outbound == pre.outbound
            &&& post.inbound == pre.inbound
            &&& post.flushed == pre.flushed
            &&& post.prepared == pre.prepared
            &&& post.next_wire_id == pre.next_wire_id
            &&& post.reads == pre.reads
            &&& post.cancels == pre.cancels
            &&& post.dispatch_passes == pre.dispatch_passes
        } else {
            post == pre
        }
    }
}

/// At most every signature position before `i` is an object reference.
proof fn lemma_obj_count_sig_bound(sig: Seq<ArgKind>, i: int)
    requires
        0 <= i <= sig.len(),
    ensures
        0 <= obj_count_sig(sig, i) <= i,
    decreases i,
{
    if i > 0 {
        lemma_obj_count_sig_bound(sig, i - 1);
    }
}

/// The identity a foreign (unmanaged) object reference decodes to: the
/// handle as it came, no wire id, no liveness tracking, and a bare
/// interface carrying only the declared name.
fn foreign_object(hx: usize, dname: String) -> (r: ObjectId)
    ensures
        r.proxy == Some(hx),
        r.id == 0,
        r.alive is None,
        r.iface@ == bare_interface(dname@),
{
    let iface = Interface {
        name: dname,
        version: 0,
        requests: Vec::new(),
        events: Vec::new(),
        raw_interface: None,
    };
    proof {
        assert(iface@.requests =~= Seq::<MessageView>::empty());
        assert(iface@.events =~= Seq::<MessageView>::empty());
    }
    ObjectId { proxy: Some(hx), id: 0, iface, alive: None }
}

impl<D: ObjectData> Connection<D> {
    /// Decode one inbound event generically against the schema: recover the
    /// target object's identity, look the message up in its interface's
    /// event table (an opcode beyond the table aborts the decode, never an
    /// out-of-bounds read), validate every native slot against the declared
    /// shape, then build the typed argument list; a `new-id` slot eagerly
    /// constructs a fresh object with a placeholder handler on the target's
    /// queue, so that delivery already sees a valid object. On any error
    /// nothing changes.
    #[verifier::loop_isolation(false)]
    #[verifier::rlimit(80)]
    pub fn decode_event(
        &mut self,
        proxy: usize,
        opcode: u16,
        args: Vec<NativeArg>,
    ) -> (r: Result<(Event<ObjectId, i32>, Option<usize>), Error>)
        requires
            old(self).wf(),
        ensures
            final(self).wf(),
            flags_monotone(old(self).flags@, final(self).flags@),
            match r {
                Err(e) => *final(self) == *old(self) && old(self).spec_decode_err(
                    proxy as int,
                    opcode,
                    args@,
                ) == Some(e.kind),
                Ok((ev, created)) => {
                    &&& old(self).spec_decode_err(proxy as int, opcode, args@) is None
                    &&& Self::spec_decode_ok(
                        *old(self),
                        *final(self),
                        proxy as int,
                        opcode,
                        args@,
                        ev,
                        created,
                    )
                },
            },
    {
        let ghost slotsv = args@;
        // 1. recover the target object's identity and interface
        if proxy >= self.proxies.len() {
            return Err(Error::new(ErrorKind::InvalidId));
        }
        let (s_wid, s_version, s_flag, s_queue, s_iface) = match self.proxies[proxy].as_ref() {
            Some(s) => (s.wire_id, s.version, s.flag, s.queue, s.iface.clone()),
            None => {
                return Err(Error::new(ErrorKind::InvalidId));
            },
        };
        // 2. look the message up in the event table
        if (opcode as usize) >= s_iface.events.len() {
            return Err(Error::new(ErrorKind::DispatchError));
        }
        let msg = s_iface.events[opcode as usize].clone();
        proof {
            assert(s_iface@ == self.proxies@[proxy as int].unwrap().iface@);
            assert(msg@ == lookup_event(s_iface@, opcode).unwrap());
        }
        let ghost msgv = msg@;
        // 3. validate every slot against the declared shape
        if args.len() < msg.sig.len() {
            proof {
                assert(!self.spec_decodable(msgv, slotsv));
            }
            return Err(Error::new(ErrorKind::SubmitError));
        }
        let anon_name: String = "<anonymous>".to_owned();
        let mut k: usize = 0;
        let mut occ: usize = 0;
        let mut seen_new = false;
        while k < msg.sig.len()
            invariant
                k <= msgv.sig.len(),
                occ == obj_count_sig(msgv.sig, k as int),
                seen_new == exists|j: int| 0 <= j < k && #[trigger] msgv.sig[j] == ArgKind::New,
                forall|a: int, b: int|
                    #![trigger msgv.sig[a], msgv.sig[b]]
                    0 <= a < b < k ==> !(msgv.sig[a] == ArgKind::New && msgv.sig[b]
                        == ArgKind::New),
                forall|j: int| 0 <= j < k ==> self.spec_slot_ok(msgv, slotsv, j),
            decreases msgv.sig.len() - k,
        {
            let kind = msg.sig[k];
            match kind {
                ArgKind::Object(_) => {
                    match &args[k] {
                        NativeArg::Object(oh) => {
                            match oh {
                                Some(hx) => {
                                    if *hx < self.proxies.len() {
                                        match self.proxies[*hx].as_ref() {
                                            Some(os) => {
                                                let name_ok = if occ < msg.arg_interfaces.len() {
                                                    os.iface.name == msg.arg_interfaces[occ]
                                                } else {
                                                    os.iface.name == anon_name
                                                };
                                                if !name_ok {
                                                    proof {
                                                        assert(!self.spec_slot_ok(
                                                            msgv,
                                                            slotsv,
                                                            k as int,
                                                        ));
                                                        assert(!self.spec_decodable(msgv, slotsv));
                                                    }
                                                    return Err(Error::new(ErrorKind::SubmitError));
                                                }
                                            },
                                            None => {},
                                        }
                                    }
                                },
                                None => {},
                            }
                        },
                        _ => {
                            proof {
                                assert(!self.spec_slot_ok(msgv, slotsv, k as int));
                                assert(!self.spec_decodable(msgv, slotsv));
                            }
                            return Err(Error::new(ErrorKind::SubmitError));
                        },
                    }
                    proof {
                        lemma_obj_count_sig_bound(msgv.sig, k as int);
                    }
                    occ = occ + 1;
                },
                ArgKind::New => {
                    if seen_new {
                        proof {
                            let j = choose|j: int|
                                0 <= j < k && #[trigger] msgv.sig[j] == ArgKind::New;
                            assert(msgv.sig[j] == ArgKind::New && msgv.sig[k as int]
                                == ArgKind::New);
                            assert(!one_new(msgv.sig));
                            assert(!self.spec_decodable(msgv, slotsv));
                        }
                        return Err(Error::new(ErrorKind::SubmitError));
                    }
                    seen_new = true;
                    match &args[k] {
                        NativeArg::NewId(_) => {},
                        NativeArg::Object(oh) => {
                            if oh.is_some() {
                                proof {
                                    assert(!self.spec_slot_ok(msgv, slotsv, k as int));
                                    assert(!self.spec_decodable(msgv, slotsv));
                                }
                                return Err(Error::new(ErrorKind::SubmitError));
                            }
                        },
                        _ => {
                            proof {
                                assert(!self.spec_slot_ok(msgv, slotsv, k as int));
                                assert(!self.spec_decodable(msgv, slotsv));
                            }
                            return Err(Error::new(ErrorKind::SubmitError));
                        },
                    }
                },
                _ => {
                    let shape_ok = match (kind, &args[k]) {
                        (ArgKind::Int, NativeArg::Int(_)) => true,
                        (ArgKind::Uint, NativeArg::Uint(_)) => true,
                        (ArgKind::Fixed, NativeArg::Fixed(_)) => true,
                        (ArgKind::Array, NativeArg::Array(_)) => true,
                        (ArgKind::Fd, NativeArg::Fd(_)) => true,
                        (ArgKind::Str(nullable), NativeArg::Str(os)) => os.is_some() || nullable,
                        _ => false,
                    };
                    if !shape_ok {
                        proof {
                            assert(!self.spec_slot_ok(msgv, slotsv, k as int));
                            assert(!self.spec_decodable(msgv, slotsv));
                        }
                        return Err(Error::new(ErrorKind::SubmitError));
                    }
                },
            }
            k = k + 1;
        }
        proof {
            assert(self.spec_decodable(msgv, slotsv));
            assert(self.spec_decode_err(proxy as int, opcode, slotsv) is None);
        }
        // 4. the interface a constructed object would get
        let child_iface: Interface = match msg.child.as_ref() {
            Some(n) => {
                match self.find_interface(n) {
                    Some(c) => c,
                    None => {
                        let bare = Interface {
                            name: n.clone(),
                            version: 0,
                            requests: Vec::new(),
                            events: Vec::new(),
                            raw_interface: None,
                        };
                        proof {
                            assert(bare@.requests =~= Seq::<MessageView>::empty());
                            assert(bare@.events =~= Seq::<MessageView>::empty());
                            assert(bare@ == bare_interface(n@));
                        }
                        bare
                    },
                }
            },
            None => Interface::anon(),
        };
        proof {
            assert(child_iface@ =~~= self.spec_child_iface_of(msgv));
        }
        // 5. build the typed argument list
        let hnew = self.proxies.len();
        let fnew = self.flags.len();
        let sender_id = ObjectId { proxy: Some(proxy), id: s_wid, iface: s_iface, alive: Some(s_flag) };
        let mut rest = args;
        let mut parsed: Vec<Arg<ObjectId, i32>> = Vec::new();
        let mut i: usize = 0;
        let mut occ2: usize = 0;
        let mut created_wid: Option<u32> = None;
        proof {
            assert(rest@ =~= slotsv.skip(0));
        }
        while i < msg.sig.len()
            invariant
                i <= msgv.sig.len(),
                rest@ == slotsv.skip(i as int),
                parsed@.len() == i,
                occ2 == obj_count_sig(msgv.sig, i as int),
                forall|j: int|
                    0 <= j < i ==> Self::spec_decoded_arg(
                        *self,
                        msgv,
                        slotsv,
                        j,
                        #[trigger] parsed@[j],
                    ),
                created_wid is Some <==> exists|j: int|
                    0 <= j < i && #[trigger] msgv.sig[j] == ArgKind::New && slotsv[j] is NewId,
                created_wid is Some ==> exists|j: int|
                    0 <= j < i && #[trigger] msgv.sig[j] == ArgKind::New && slotsv[j] is NewId
                        && slotsv[j]->NewId_0 == created_wid.unwrap(),
            decreases msgv.sig.len() - i,
        {
            let slot = rest.remove(0);
            proof {
                assert(slotsv.skip(i as int)[0] == slotsv[i as int]);
                assert(slot == slotsv[i as int]);
                assert(rest@ =~= slotsv.skip(i as int + 1));
                assert(self.spec_slot_ok(msgv, slotsv, i as int));
            }
            let kind = msg.sig[i];
            match kind {
                ArgKind::Object(_) => {
                    let dname: String = if occ2 < msg.arg_interfaces.len() {
                        msg.arg_interfaces[occ2].clone()
                    } else {
                        "<anonymous>".to_owned()
                    };
                    proof {
                        assert(dname@ == declared_iface_name(msgv, i as int));
                    }
                    match slot {
                        NativeArg::Object(oh) => {
                            match oh {
                                Some(hx) => {
                                    if hx < self.proxies.len() {
                                        match self.proxies[hx].as_ref() {
                                            Some(os) => {
                                                parsed.push(
                                                    Arg::Object(
                                                        ObjectId {
                                                            proxy: Some(hx),
                                                            id: os.wire_id,
                                                            iface: os.iface.clone(),
                                                            alive: Some(os.flag),
                                                        },
                                                    ),
                                                );
                                            },
                                            None => {
                                                parsed.push(
                                                    Arg::Object(foreign_object(hx, dname)),
                                                );
                                            },
                                        }
                                    } else {
                                        parsed.push(Arg::Object(foreign_object(hx, dname)));
                                    }
                                },
                                None => parsed.push(Arg::Object(ObjectId::nil())),
                            }
                        },
                        _ => {
                            proof {
                                assert(false);
                            }
                            return vstd::pervasive::unreached();
                        },
                    }
                    proof {
                        lemma_obj_count_sig_bound(msgv.sig, i as int);
                    }
                    occ2 = occ2 + 1;
                },
                ArgKind::New => {
                    match slot {
                        NativeArg::NewId(wid) => {
                            created_wid = Some(wid);
                            parsed.push(
                                Arg::New(
                                    ObjectId {
                                        proxy: Some(hnew),
                                        id: wid,
                                        iface: child_iface.clone(),
                                        alive: Some(fnew),
                                    },
                                ),
                            );
                        },
                        NativeArg::Object(oh) => {
                            proof {
                                assert(oh is None);
                            }
                            parsed.push(Arg::Object(ObjectId::nil()));
                        },
                        _ => {
                            proof {
                                assert(false);
                            }
                            return vstd::pervasive::unreached();
                        },
                    }
                },
                _ => {
                    match decode_value(kind, slot) {
                        Some(a) => parsed.push(a),
                        None => {
                            proof {
                                assert(false);
                            }
                            return vstd::pervasive::unreached();
                        },
                    }
                },
            }
            i = i + 1;
        }
        // 6. construct the new object eagerly, before delivery
        let ghost pre = *self;
        let created: Option<usize> = match created_wid {
            Some(wid) => {
                self.flags.push(true);
                self.proxies.push(
                    Some(
                        ProxySlot {
                            wire_id: wid,
                            version: s_version,
                            iface: child_iface,
                            flag: fnew,
                            data: None,
                            queue: s_queue,
                        },
                    ),
                );
                let sq = &mut self.queues[s_queue];
                sq.known.push(hnew);
                Some(hnew)
            },
            None => None,
        };
        proof {
            if created_wid is Some {
                let ci = choose|ci: int|
                    0 <= ci < msgv.sig.len() && msgv.sig[ci] == ArgKind::New && (
                    #[trigger] slotsv[ci]) is NewId;
                let j = choose|j: int|
                    0 <= j < msgv.sig.len() && #[trigger] msgv.sig[j] == ArgKind::New && slotsv[j]
                        is NewId && slotsv[j]->NewId_0 == created_wid.unwrap();
                assert(ci == j);
                assert(Self::spec_new_wid(msgv, slotsv) == created_wid.unwrap());
                assert forall|hh: int|
                    0 <= hh < self.proxies@.len() && (#[trigger] self.proxies@[hh])
                        is Some implies self.slot_wf(self.proxies@[hh].unwrap()) by {
                    if hh < pre.proxies@.len() {
                        assert(pre.slot_wf(pre.proxies@[hh].unwrap()));
                    }
                }
                assert forall|qi: int, ix: int|
                    0 <= qi < self.queues@.len() && 0 <= ix < self.queues@[qi].known@.len() implies {
                        let hk = #[trigger] self.queues@[qi].known@[ix] as int;
                        &&& hk < self.proxies@.len()
                        &&& self.proxies@[hk] is Some
                        &&& self.proxies@[hk].unwrap().queue == qi
                    } by {
                    if qi == s_queue && ix == self.queues@[qi].known@.len() - 1 {
                        assert(self.queues@[qi].known@[ix] == hnew);
                    } else {
                        assert(self.queues@[qi].known@[ix] == pre.queues@[qi].known@[ix]);
                        assert(pre.known_ok());
                    }
                }
                assert forall|qi: int|
                    0 <= qi < self.queues@.len() implies nodup(
                    #[trigger] self.queues@[qi].known@,
                ) by {
                    assert(nodup(pre.queues@[qi].known@));
                    if qi == s_queue {
                        let kn = self.queues@[qi].known@;
                        let kn0 = pre.queues@[qi].known@;
                        assert(kn =~= kn0.push(hnew));
                        assert forall|a: int, b: int|
                            #![trigger kn[a], kn[b]]
                            0 <= a < b < kn.len() implies kn[a] != kn[b] by {
                            if b < kn0.len() {
                                assert(kn[a] == kn0[a] && kn[b] == kn0[b]);
                            } else {
                                assert(kn[b] == hnew);
                                assert(kn[a] == kn0[a]);
                                assert(pre.known_ok());
                                assert(kn0[a] < pre.proxies@.len());
                            }
                        }
                    }
                }
                assert(self.wf());
            }
        }
        let r_ev = Event { sender: sender_id, opcode, args: parsed };
        proof {
            assert(Self::spec_decode_ok(pre, *self, proxy as int, opcode, slotsv, r_ev, created));
        }
        Ok((r_ev, created))
    }
}

impl<D: ObjectData> Connection<D> {
    /// Deliver one decoded event to its target's handler. The handler may
    /// keep itself, replace itself, or (when the event constructed a new
    /// object) supply the handler for that object; returning nothing stops
    /// handling (a protocol error), and a constructor event whose handler
    /// supplies nothing for the new object is rejected as malformed. A
    /// destructor event then clears the target's liveness flag, notifies
    /// and detaches its handler, removes it from its queue's known-object
    /// set and frees its proxy — whatever the handler decided.
    pub fn deliver_event(
        &mut self,
        proxy: usize,
        ev: Event<ObjectId, i32>,
        created: Option<usize>,
    ) -> (r: Result<(), Error>)
        requires
            old(self).wf(),
            created matches Some(ch) ==> ch < old(self).proxies@.len() && old(self).proxies@[ch
                as int] is Some && ch != proxy,
        ensures
            final(self).wf(),
            flags_monotone(old(self).flags@, final(self).flags@),
            !old(self).spec_dispatch_target_ok(proxy as int) ==> *final(self) == *old(self) && (
            r matches Err(e) && e.kind == ErrorKind::InvalidId),
            old(self).spec_dispatch_target_ok(proxy as int) ==> ({
                let s = old(self).proxies@[proxy as int].unwrap();
                let destr = match lookup_event(s.iface@, ev.opcode) {
                    Some(m) => m.is_destructor,
                    None => false,
                };
                &&& (r matches Err(e) ==> e.kind == ErrorKind::DispatchError)
                &&& (destr ==> {
                    &&& final(self).flags@.len() == old(self).flags@.len()
                    &&& (forall|f: int|
                        0 <= f < old(self).flags@.len() ==> #[trigger] final(self).flags@[f] == (
                        if f == s.flag {
                            false
                        } else {
                            old(self).flags@[f]
                        }))
                    &&& final(self).proxies@[proxy as int] is None
                    &&& final(self).queues@[s.queue as int].known@ == old(self).queues@[s.queue
                        as int].known@.remove_value(proxy)
                    &&& !final(self).queues@[s.queue as int].known@.contains(proxy)
                    &&& (forall|q: int|
                        0 <= q < old(self).queues@.len() && q != s.queue
                            ==> #[trigger] final(self).queues@[q] == old(self).queues@[q])
                })
                &&& (!destr ==> {
                    &&& final(self).flags@ == old(self).flags@
                    &&& final(self).queues@ == old(self).queues@
                    &&& final(self).proxies@[proxy as int] is Some
                    &&& ({
                        let s2 = final(self).proxies@[proxy as int].unwrap();
                        s2.wire_id == s.wire_id && s2.version == s.version && s2.iface == s.iface
                            && s2.flag == s.flag && s2.queue == s.queue
                    })
                })
                &&& final(self).proxies@.len() == old(self).proxies@.len()
                &&& (forall|h: int|
                    0 <= h < old(self).proxies@.len() && h != proxy && Some(h as usize) != created
                        ==> #[trigger] final(self).proxies@[h] == old(self).proxies@[h])
                &&& (created matches Some(ch) ==> {
                    &&& final(self).proxies@[ch as int] is Some
                    &&& ({
                        let c0 = old(self).proxies@[ch as int].unwrap();
                        let c1 = final(self).proxies@[ch as int].unwrap();
                        c1.wire_id == c0.wire_id && c1.version == c0.version && c1.iface
                            == c0.iface && c1.flag == c0.flag && c1.queue == c0.queue
                    })
                    &&& (r is Ok ==> final(self).proxies@[ch as int].unwrap().data is Some)
                    &&& (r is Err ==> final(self).proxies@[ch as int].unwrap().data == old(
                        self,
                    ).proxies@[ch as int].unwrap().data)
                })
                &&& (created is None && !destr ==> (r is Ok <==> final(self).proxies@[proxy
                    as int].unwrap().data is Some))
                &&& (s.data is None && created is None ==> r is Err)
                &&& final(self).schema == old(self).schema
                &&& final(self).outbound == old(self).outbound
                &&& final(self).inbound == old(self).inbound
                &&& final(self).flushed == old(self).flushed
                &&& final(self).prepared == old(self).prepared
                &&& final(self).next_wire_id == old(self).next_wire_id
                &&& final(self).reads == old(self).reads
                &&& final(self).cancels == old(self).cancels
                &&& final(self).dispatch_passes == old(self).dispatch_passes
            }),
    {
        if proxy >= self.proxies.len() {
            return Err(Error::new(ErrorKind::InvalidId));
        }
        let (s_flag, s_queue, destr, handler) = match self.proxies[proxy].as_ref() {
            Some(s) => {
                let destr = if (ev.opcode as usize) < s.iface.events.len() {
                    s.iface.events[ev.opcode as usize].is_destructor
                } else {
                    false
                };
                (s.flag, s.queue, destr, s.data.clone())
            },
            None => {
                return Err(Error::new(ErrorKind::InvalidId));
            },
        };
        let sid = ev.sender.clone();
        // hand the event to the current handler
        let ret = match handler {
            Some(d) => d.on_event(ev),
            None => None,
        };
        let stopped = ret.is_none();
        // attach the returned handler: to the created object for a
        // constructor event, to the target itself otherwise
        let outcome: Result<(), Error> = match created {
            Some(ch) => {
                match ret {
                    Some(d) => {
                        let mut tmp: Option<ProxySlot<D>> = None;
                        let slot_ref = &mut self.proxies[ch];
                        core::mem::swap(&mut tmp, slot_ref);
                        match tmp {
                            Some(mut cslot) => {
                                cslot.data = Some(d);
                                self.proxies[ch] = Some(cslot);
                                Ok(())
                            },
                            None => {
                                proof {
                                    assert(false);
                                }
                                vstd::pervasive::unreached()
                            },
                        }
                    },
                    None => Err(Error::new(ErrorKind::DispatchError)),
                }
            },
            None => {
                let mut tmp: Option<ProxySlot<D>> = None;
                let slot_ref = &mut self.proxies[proxy];
                core::mem::swap(&mut tmp, slot_ref);
                match tmp {
                    Some(mut s2) => {
                        s2.data = ret;
                        self.proxies[proxy] = Some(s2);
                    },
                    None => {
                        proof {
                            assert(false);
                        }
                        return vstd::pervasive::unreached();
                    },
                }
                if stopped {
                    Err(Error::new(ErrorKind::DispatchError))
                } else {
                    Ok(())
                }
            },
        };
        // destructor teardown, whatever the handler decided
        if destr {
            self.flags[s_flag] = false;
            let mut tmp: Option<ProxySlot<D>> = None;
            let slot_ref = &mut self.proxies[proxy];
            core::mem::swap(&mut tmp, slot_ref);
            match tmp {
                Some(slot) => match slot.data {
                    Some(dd) => dd.on_destruction(sid),
                    None => {},
                },
                None => {},
            }
            proof {
                assert(nodup(self.queues@[s_queue as int].known@));
            }
            let sq = &mut self.queues[s_queue];
            remove_known(&mut sq.known, proxy);
        }
        proof {
            let pre = *old(self);
            let post = *self;
            assert forall|hh: int|
                0 <= hh < post.proxies@.len() && (#[trigger] post.proxies@[hh])
                    is Some implies post.slot_wf(post.proxies@[hh].unwrap()) by {
                assert(pre.proxies@[hh] is Some);
                assert(pre.slot_wf(pre.proxies@[hh].unwrap()));
                assert(post.proxies@[hh].unwrap().flag == pre.proxies@[hh].unwrap().flag);
                assert(post.proxies@[hh].unwrap().queue == pre.proxies@[hh].unwrap().queue);
            }
            assert forall|qi: int, ix: int|
                0 <= qi < post.queues@.len() && 0 <= ix < post.queues@[qi].known@.len() implies {
                    let hk = #[trigger] post.queues@[qi].known@[ix] as int;
                    &&& hk < post.proxies@.len()
                    &&& post.proxies@[hk] is Some
                    &&& post.proxies@[hk].unwrap().queue == qi
                } by {
                let hk = post.queues@[qi].known@[ix];
                if destr && qi == s_queue {
                    assert(post.queues@[qi].known@.contains(hk));
                    assert(pre.queues@[qi].known@.contains(hk));
                    let j = choose|j: int|
                        0 <= j < pre.queues@[qi].known@.len() && pre.queues@[qi].known@[j] == hk;
                    assert(pre.known_ok());
                    assert(hk != proxy);
                } else {
                    assert(post.queues@[qi].known@[ix] == pre.queues@[qi].known@[ix]);
                    assert(pre.known_ok());
                    if destr {
                        assert(pre.proxies@[hk as int].unwrap().queue == qi);
                        assert(pre.proxies@[proxy as int].unwrap().queue == s_queue);
                        assert(hk != proxy);
                    }
                }
            }
            assert forall|qi: int|
                0 <= qi < post.queues@.len() implies nodup(#[trigger] post.queues@[qi].known@) by {
                assert(nodup(pre.queues@[qi].known@));
            }
            assert(post.wf());
        }
        outcome
    }
}

impl<D: ObjectData> Connection<D> {
    /// The single dispatcher entry point for one inbound event: decode it
    /// against the schema, then deliver it to the target's handler. Decode
    /// failures report exactly as `spec_decode_err` says, with nothing
    /// changed; after a successful decode, a destructor event always leaves
    /// the target dead, out of its queue's known-object set, and freed.
    pub fn dispatch_event(
        &mut self,
        proxy: usize,
        opcode: u16,
        args: Vec<NativeArg>,
    ) -> (r: Result<(), Error>)
        requires
            old(self).wf(),
        ensures
            final(self).wf(),
            flags_monotone(old(self).flags@, final(self).flags@),
            final(self).inbound == old(self).inbound,
            final(self).outbound == old(self).outbound,
            final(self).prepared == old(self).prepared,
            final(self).reads == old(self).reads,
            final(self).cancels == old(self).cancels,
            final(self).dispatch_passes == old(self).dispatch_passes,
            (old(self).spec_decode_err(proxy as int, opcode, args@) is Some ==> (*final(self)
                == *old(self) && r is Err && r->Err_0.kind == old(self).spec_decode_err(
                proxy as int,
                opcode,
                args@,
            ).unwrap())),
            (old(self).spec_decode_err(proxy as int, opcode, args@) is None ==> ({
                let s = old(self).proxies@[proxy as int].unwrap();
                let m = lookup_event(s.iface@, opcode).unwrap();
                &&& (m.is_destructor ==> {
                    &&& s.flag < final(self).flags@.len()
                    &&& !final(self).flags@[s.flag as int]
                    &&& !final(self).queues@[s.queue as int].known@.contains(proxy)
                    &&& final(self).proxies@[proxy as int] is None
                })
                &&& (r matches Err(e) ==> e.kind == ErrorKind::DispatchError)
            })),
    {
        let ghost pre = *self;
        let ghost argsv = args@;
        let plen = self.proxies.len();
        match self.decode_event(proxy, opcode, args) {
            Ok((ev, created)) => {
                let ghost mid = *self;
                proof {
                    assert(Self::spec_decode_ok(pre, mid, proxy as int, opcode, argsv, ev, created));
                    assert(mid.proxies@[proxy as int] == pre.proxies@[proxy as int]);
                    assert(pre.spec_dispatch_target_ok(proxy as int));
                    if created is Some {
                        let ch = created.unwrap();
                        let ghost m = lookup_event(
                            pre.proxies@[proxy as int].unwrap().iface@,
                            opcode,
                        ).unwrap();
                        assert(Self::spec_creates(m, argsv));
                        assert(pre.proxies@.len() == plen);
                        assert(ch == pre.proxies@.len());
                        assert(mid.proxies@[ch as int] is Some);
                        assert(proxy < pre.proxies@.len());
                    }
                }
                let r2 = self.deliver_event(proxy, ev, created);
                proof {
                    lemma_flags_monotone_trans(pre.flags@, mid.flags@, self.flags@);
                    let s = pre.proxies@[proxy as int].unwrap();
                    let m = lookup_event(s.iface@, opcode).unwrap();
                    if m.is_destructor {
                        assert(s.flag < pre.flags@.len());
                        assert(!self.flags@[s.flag as int]);
                        assert(!self.queues@[s.queue as int].known@.contains(proxy));
                    }
                }
                r2
            },
            Err(e) => Err(e),
        }
    }

    /// Dispatch all currently queued inbound events, in order. Stops at the
    /// first event whose dispatch fails (reported as `DispatchError`); the
    /// queue is drained either way, and exactly one dispatch pass is
    /// recorded.
    pub fn dispatch_pending(&mut self) -> (r: Result<usize, Error>)
        requires
            old(self).wf(),
        ensures
            final(self).wf(),
            flags_monotone(old(self).flags@, final(self).flags@),
            final(self).dispatch_passes@ == old(self).dispatch_passes@ + 1,
            final(self).reads == old(self).reads,
            final(self).cancels == old(self).cancels,
            final(self).prepared == old(self).prepared,
            final(self).inbound@.len() == 0,
            (r matches Ok(n) ==> n == old(self).inbound@.len()),
            (r matches Err(e) ==> e.kind == ErrorKind::DispatchError),
    {
        let mut pending: Vec<InboundMessage> = Vec::new();
        core::mem::swap(&mut pending, &mut self.inbound);
        self.dispatch_passes = Ghost(self.dispatch_passes@ + 1);
        let total = pending.len();
        let mut count: usize = 0;
        while pending.len() > 0
            invariant
                count + pending@.len() == total,
                self.wf(),
                flags_monotone(old(self).flags@, self.flags@),
                self.inbound@.len() == 0,
                self.dispatch_passes@ == old(self).dispatch_passes@ + 1,
                self.reads == old(self).reads,
                self.cancels == old(self).cancels,
                self.prepared == old(self).prepared,
            decreases pending@.len(),
        {
            let m = pending.remove(0);
            let InboundMessage { proxy, opcode, args } = m;
            let ghost mid1 = *self;
            let step = self.dispatch_event(proxy, opcode, args);
            proof {
                lemma_flags_monotone_trans(old(self).flags@, mid1.flags@, self.flags@);
            }
            match step {
                Ok(()) => {
                    count = count + 1;
                },
                Err(_) => {
                    return Err(Error::new(ErrorKind::DispatchError));
                },
            }
        }
        Ok(count)
    }

    /// Begin the two-phase read protocol: issue the native "prepare" call.
    /// Fails with `DispatchError` when another reader has already prepared;
    /// otherwise the returned guard holds the sole outstanding preparation,
    /// and must be resolved through `read` (or `read_non_dispatch`) or
    /// `cancel` — a wrapper that drops the guard calls `cancel`, so no
    /// other thread is left believing a read is pending.
    pub fn lock_read(&mut self) -> (r: Result<EventsReadGuard, Error>)
        requires
            old(self).wf(),
        ensures
            final(self).wf(),
            old(self).prepared ==> (r matches Err(e) && e.kind == ErrorKind::DispatchError)
                && *final(self) == *old(self),
            !old(self).prepared ==> r is Ok && *final(self) == (Connection {
                prepared: true,
                ..*old(self)
            }),
    {
        if self.prepared {
            return Err(Error::new(ErrorKind::DispatchError));
        }
        self.prepared = true;
        Ok(EventsReadGuard { _p: () })
    }
}

/// The scoped permission to perform the blocking read of the two-phase
/// protocol. Exactly one exists per outstanding preparation; every exit
/// path resolves it: `read` (or `read_non_dispatch`) completes the read,
/// `cancel` gives the slot back, issuing exactly one cancel operation.
#[derive(Debug)]
pub struct EventsReadGuard {
    _p: (),
}

impl EventsReadGuard {
    /// Perform the blocking read, then synchronously dispatch all now
    /// queued events: exactly one read and one dispatch pass.
    pub fn read<D: ObjectData>(self, conn: &mut Connection<D>) -> (r: Result<usize, Error>)
        requires
            old(conn).wf(),
            old(conn).prepared,
        ensures
            final(conn).wf(),
            flags_monotone(old(conn).flags@, final(conn).flags@),
            !final(conn).prepared,
            final(conn).reads@ == old(conn).reads@ + 1,
            final(conn).cancels == old(conn).cancels,
            final(conn).dispatch_passes@ == old(conn).dispatch_passes@ + 1,
            final(conn).inbound@.len() == 0,
            (r matches Ok(n) ==> n == old(conn).inbound@.len()),
            (r matches Err(e) ==> e.kind == ErrorKind::DispatchError),
    {
        conn.prepared = false;
        conn.reads = Ghost(conn.reads@ + 1);
        conn.dispatch_pending()
    }

    /// Perform the blocking read without dispatching; the queued events
    /// stay until a later dispatch pass.
    pub fn read_non_dispatch<D: ObjectData>(self, conn: &mut Connection<D>) -> (r: Result<
        (),
        Error,
    >)
        requires
            old(conn).wf(),
            old(conn).prepared,
        ensures
            final(conn).wf(),
            r is Ok,
            final(conn).reads@ == old(conn).reads@ + 1,
            *final(conn) == (Connection {
                prepared: false,
                reads: final(conn).reads,
                ..*old(conn)
            }),
    {
        conn.prepared = false;
        conn.reads = Ghost(conn.reads@ + 1);
        Ok(())
    }

    /// Give the read slot back without reading: issues exactly one cancel
    /// operation, so the queue is never left in a half-read state.
    pub fn cancel<D: ObjectData>(self, conn: &mut Connection<D>)
        requires
            old(conn).wf(),
            old(conn).prepared,
        ensures
            final(conn).wf(),
            !final(conn).prepared,
            final(conn).cancels@ == old(conn).cancels@ + 1,
            *final(conn) == (Connection {
                prepared: false,
                cancels: final(conn).cancels,
                ..*old(conn)
            }),
    {
        conn.prepared = false;
        conn.cancels = Ghost(conn.cancels@ + 1);
    }
}

impl<D: ObjectData> Connection<D> {
    /// The object-reference half of the encode/decode round trip: encoding
    /// a canonical reference to a managed object (one whose id, liveness
    /// flag and interface are exactly what the arena tracks for its handle)
    /// and decoding the resulting slot yields a reference with the same
    /// mathematical value. Together with the value-kind round trip of the
    /// wire module, every argument kind except `new-id` (which allocates)
    /// survives the trip.
    pub proof fn lemma_object_roundtrip(
        pre: Connection<D>,
        m: MessageView,
        args: Seq<Arg<ObjectId, i32>>,
        i: int,
        a: Arg<ObjectId, i32>,
    )
        requires
            0 <= i < args.len(),
            args[i] is Object,
            i < m.sig.len(),
            m.sig[i] matches ArgKind::Object(_),
            ({
                let o = args[i]->Object_0;
                &&& o.proxy is Some
                &&& o.proxy.unwrap() < pre.proxies@.len()
                &&& pre.proxies@[o.proxy.unwrap() as int] is Some
                &&& o.id == pre.proxies@[o.proxy.unwrap() as int].unwrap().wire_id
                &&& o.alive == Some(pre.proxies@[o.proxy.unwrap() as int].unwrap().flag)
                &&& o.iface@ == pre.proxies@[o.proxy.unwrap() as int].unwrap().iface@
            }),
            Self::spec_decoded_arg(pre, m, encode_args_view(args), i, a),
        ensures
            a is Object,
            a->Object_0@ == args[i]->Object_0@,
    {
        let o = args[i]->Object_0;
        assert(encode_args_view(args)[i] == spec_encode_arg(args[i]));
        assert(spec_encode_arg(args[i]) == NativeArg::Object(o.proxy));
    }
}

} // verus!
