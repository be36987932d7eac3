use yage::errors::ErrorKind;
use yage::wayland::connection::Connection;
use yage::wayland::data::{DummyObjectData, ObjectData};
use yage::wayland::event::{Arg, Event};
use yage::wayland::event_loop::EventQueue;
use yage::wayland::interfaces::{
    wl_buffer_interface, wl_callback_interface, wl_display_interface, wl_registry_interface,
};
use yage::wayland::registry;
use yage::wayland::wire::NativeArg;
use yage::wayland::{ArgKind, Interface, Message, ObjectId};

fn schema() -> Vec<Interface> {
    vec![
        wl_display_interface(),
        wl_registry_interface(),
        wl_callback_interface(),
        wl_buffer_interface(),
    ]
}

#[derive(Clone, Debug)]
struct Flip(bool);

impl ObjectData for Flip {
    fn on_event(self, _message: Event<ObjectId, i32>) -> Option<Self> {
        Some(Flip(!self.0))
    }

    fn on_destruction(&self, _id: ObjectId) {}
}

#[derive(Clone, Debug)]
struct Stopper;

impl ObjectData for Stopper {
    fn on_event(self, _message: Event<ObjectId, i32>) -> Option<Self> {
        None
    }

    fn on_destruction(&self, _id: ObjectId) {}
}

#[test]
fn opcode_beyond_event_table_fails_decode() {
    let mut conn: Connection<DummyObjectData> =
        Connection::connect(wl_display_interface(), schema());
    let q = EventQueue { q: 0 };
    let cb = q.manage(&mut conn, wl_callback_interface(), DummyObjectData);
    let h = cb.proxy.unwrap();
    let err = conn.decode_event(h, 7, vec![NativeArg::Uint(1)]).unwrap_err();
    assert!(matches!(err.kind(), ErrorKind::DispatchError));
    // nothing changed, and the object is still alive
    assert!(conn.is_alive(&cb));
}

#[test]
fn registry_global_decodes_to_typed_event() {
    let mut conn: Connection<DummyObjectData> =
        Connection::connect(wl_display_interface(), schema());
    let q = EventQueue { q: 0 };
    let reg = q.manage(&mut conn, wl_registry_interface(), DummyObjectData);
    let h = reg.proxy.unwrap();
    let (ev, created) = conn
        .decode_event(
            h,
            0,
            vec![
                NativeArg::Uint(1),
                NativeArg::Str(Some("wl_compositor".to_string())),
                NativeArg::Uint(4),
            ],
        )
        .unwrap();
    assert!(created.is_none());
    let typed = registry::Event::parse(ev.opcode, ev.args).unwrap();
    match typed {
        registry::Event::Global {
            name,
            iface,
            version,
        } => {
            assert_eq!(name, 1);
            assert_eq!(iface, "wl_compositor");
            assert_eq!(version, 4);
        }
        other => panic!("expected a global announcement, got {:?}", other),
    }
}

#[test]
fn destructor_event_kills_and_unregisters() {
    let mut conn: Connection<DummyObjectData> =
        Connection::connect(wl_display_interface(), schema());
    let q = EventQueue { q: 0 };
    let cb = q.manage(&mut conn, wl_callback_interface(), DummyObjectData);
    let h = cb.proxy.unwrap();
    assert_eq!(conn.queues[0].known, vec![h]);
    conn.enqueue_inbound(h, 0, vec![NativeArg::Uint(7)]);
    let n = conn.dispatch_pending().unwrap();
    assert_eq!(n, 1);
    assert!(!conn.is_alive(&cb));
    assert!(conn.queues[0].known.is_empty());
    assert!(conn.proxies[h].is_none());
}

#[test]
fn handler_replaces_itself_on_each_event() {
    let mut conn: Connection<Flip> = Connection::connect(wl_display_interface(), schema());
    let q = EventQueue { q: 0 };
    let buf = q.manage(&mut conn, wl_buffer_interface(), Flip(false));
    let h = buf.proxy.unwrap();
    // the buffer's only event is `release`, with no arguments
    conn.enqueue_inbound(h, 0, Vec::new());
    conn.dispatch_pending().unwrap();
    let d = conn.object_data(buf.clone()).unwrap().unwrap();
    assert!(d.0);
    conn.enqueue_inbound(h, 0, Vec::new());
    conn.dispatch_pending().unwrap();
    let d = conn.object_data(buf).unwrap().unwrap();
    assert!(!d.0);
}

#[test]
fn stopped_handler_is_a_protocol_error() {
    let mut conn: Connection<Stopper> = Connection::connect(wl_display_interface(), schema());
    let q = EventQueue { q: 0 };
    let buf = q.manage(&mut conn, wl_buffer_interface(), Stopper);
    let h = buf.proxy.unwrap();
    conn.enqueue_inbound(h, 0, Vec::new());
    let err = conn.dispatch_pending().unwrap_err();
    assert!(matches!(err.kind(), ErrorKind::DispatchError));
    // the handler is gone; the object itself stays alive
    assert!(conn.object_data(buf.clone()).unwrap().is_none());
    assert!(conn.is_alive(&buf));
}

#[test]
fn constructor_event_builds_a_managed_object() {
    let spawner = Interface::new("spawner", 1)
        .events(vec![Message::with_sig("spawn", vec![ArgKind::New]).child(&wl_callback_interface())]);
    let mut schema = schema();
    schema.push(spawner.clone());
    let mut conn: Connection<Flip> = Connection::connect(wl_display_interface(), schema);
    let q = EventQueue { q: 0 };
    let sp = q.manage(&mut conn, spawner, Flip(false));
    let h = sp.proxy.unwrap();
    let before = conn.proxies.len();
    conn.enqueue_inbound(h, 0, vec![NativeArg::NewId(77)]);
    conn.dispatch_pending().unwrap();
    assert_eq!(conn.proxies.len(), before + 1);
    let child = conn.proxies[before].as_ref().unwrap();
    assert_eq!(child.wire_id, 77);
    assert_eq!(child.iface.name, "wl_callback");
    // the handler returned by the spawner's handler was attached to it
    assert!(child.data.is_some());
    assert!(conn.queues[0].known.contains(&before));
}

#[test]
fn foreign_object_decodes_without_liveness() {
    let mut conn: Connection<DummyObjectData> =
        Connection::connect(wl_display_interface(), schema());
    let q = EventQueue { q: 0 };
    let reg = q.manage(&mut conn, wl_display_interface(), DummyObjectData);
    let h = reg.proxy.unwrap();
    // display event 0 is `error`, whose first slot is an object; handle 50
    // names no slot of this connection, so it decodes as foreign
    let (ev, _) = conn
        .decode_event(
            h,
            0,
            vec![
                NativeArg::Object(Some(50)),
                NativeArg::Uint(2),
                NativeArg::Str(Some("oops".to_string())),
            ],
        )
        .unwrap();
    match &ev.args[0] {
        Arg::Object(o) => {
            assert_eq!(o.proxy, Some(50));
            assert!(o.alive.is_none());
        }
        other => panic!("expected an object argument, got {:?}", other),
    }
}

#[test]
fn read_guard_cancel_frees_the_slot() {
    let mut conn: Connection<DummyObjectData> =
        Connection::connect(wl_display_interface(), schema());
    let guard = conn.lock_read().unwrap();
    assert!(conn.prepared);
    // a second prepare is refused while the first is outstanding
    let err = conn.lock_read().unwrap_err();
    assert!(matches!(err.kind(), ErrorKind::DispatchError));
    guard.cancel(&mut conn);
    assert!(!conn.prepared);
    // the slot is free again
    let guard = conn.lock_read().unwrap();
    guard.cancel(&mut conn);
}

#[test]
fn read_dispatches_queued_events() {
    let mut conn: Connection<DummyObjectData> =
        Connection::connect(wl_display_interface(), schema());
    let q = EventQueue { q: 0 };
    let cb = q.manage(&mut conn, wl_callback_interface(), DummyObjectData);
    let h = cb.proxy.unwrap();
    let guard = conn.lock_read().unwrap();
    conn.enqueue_inbound(h, 0, vec![NativeArg::Uint(3)]);
    let n = guard.read(&mut conn).unwrap();
    assert_eq!(n, 1);
    assert!(!conn.prepared);
    assert!(conn.inbound.is_empty());
    assert!(!conn.is_alive(&cb));
}

#[test]
fn unknown_target_is_invalid_id() {
    let mut conn: Connection<DummyObjectData> =
        Connection::connect(wl_display_interface(), schema());
    let err = conn.decode_event(42, 0, Vec::new()).unwrap_err();
    assert!(matches!(err.kind(), ErrorKind::InvalidId));
}

#[test]
fn malformed_slots_are_submit_errors() {
    let mut conn: Connection<DummyObjectData> =
        Connection::connect(wl_display_interface(), schema());
    let q = EventQueue { q: 0 };
    let cb = q.manage(&mut conn, wl_callback_interface(), DummyObjectData);
    let h = cb.proxy.unwrap();
    // `done` wants a Uint slot, not a string
    let err = conn
        .decode_event(h, 0, vec![NativeArg::Str(Some("done".to_string()))])
        .unwrap_err();
    assert!(matches!(err.kind(), ErrorKind::SubmitError));
    // too few slots fail the same way
    let err = conn.decode_event(h, 0, Vec::new()).unwrap_err();
    assert!(matches!(err.kind(), ErrorKind::SubmitError));
    assert!(conn.is_alive(&cb));
}
