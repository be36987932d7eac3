use yage::errors::ErrorKind;
use yage::wayland::connection::Connection;
use yage::wayland::data::DummyObjectData;
use yage::wayland::display;
use yage::wayland::event::{Arg, Event};
use yage::wayland::event_loop::EventQueue;
use yage::wayland::interfaces::{
    wl_callback_interface, wl_display_interface, wl_registry_interface, wl_surface_interface,
};
use yage::wayland::surface;
use yage::wayland::wire::NativeArg;
use yage::wayland::ObjectId;

fn schema() -> Vec<yage::wayland::Interface> {
    vec![
        wl_display_interface(),
        wl_registry_interface(),
        wl_callback_interface(),
        wl_surface_interface(),
    ]
}

fn connected() -> Connection<DummyObjectData> {
    Connection::connect(wl_display_interface(), schema())
}

#[test]
fn sync_creates_a_live_callback() {
    let mut conn = connected();
    let sender = conn.display_id();
    let (ev, cs) = display::Request::Sync.write(&conn, &sender).unwrap();
    let oid = conn.send_message(ev, Some(DummyObjectData), cs).unwrap();
    assert_eq!(oid.iface.name, "wl_callback");
    assert!(conn.is_alive(&oid));
    assert_eq!(conn.outbound.len(), 1);
    assert_eq!(conn.outbound[0].sender, 1);
    assert_eq!(conn.outbound[0].opcode, 0);
    assert!(matches!(conn.outbound[0].args[0], NativeArg::NewId(0)));
    // the new object is known to the primary queue
    assert_eq!(conn.queues[0].known, vec![oid.proxy.unwrap()]);
}

#[test]
fn dead_sender_is_invalid_without_marshaling() {
    let mut conn = connected();
    let q = EventQueue { q: 0 };
    let sid = q.manage(&mut conn, wl_surface_interface(), DummyObjectData);
    // destroy once: flag cleared, proxy freed, known set emptied
    let (ev, cs) = surface::Request::Destroy.write(&conn, &sid).unwrap();
    conn.send_message(ev, None, cs).unwrap();
    assert!(!conn.is_alive(&sid));
    assert!(conn.queues[0].known.is_empty());
    assert!(conn.proxies[sid.proxy.unwrap()].is_none());
    // destroying again reports InvalidId and changes nothing: the dead
    // sender is rejected before any native marshal call
    let outbound_before = conn.outbound.len();
    let known_before = conn.queues[0].known.clone();
    let ev2 = Event {
        sender: sid.clone(),
        opcode: 0,
        args: Vec::new(),
    };
    let err = conn.send_message(ev2, None, None).unwrap_err();
    assert!(matches!(err.kind(), ErrorKind::InvalidId));
    assert_eq!(conn.outbound.len(), outbound_before);
    assert_eq!(conn.queues[0].known, known_before);
}

#[test]
fn override_version_mismatch_is_invalid_id() {
    let mut conn = connected();
    let q = EventQueue { q: 0 };
    let sid = q.manage(&mut conn, wl_surface_interface(), DummyObjectData);
    // frame (opcode 3) declares child wl_callback; surface version is 6
    let ev = Event {
        sender: sid.clone(),
        opcode: 3,
        args: vec![Arg::New(ObjectId::nil())],
    };
    let err = conn
        .send_message(ev, Some(DummyObjectData), Some((wl_callback_interface(), 5)))
        .unwrap_err();
    assert!(matches!(err.kind(), ErrorKind::InvalidId));
    assert!(conn.outbound.is_empty());
}

#[test]
fn override_interface_mismatch_is_invalid_interface() {
    let mut conn = connected();
    let q = EventQueue { q: 0 };
    let sid = q.manage(&mut conn, wl_surface_interface(), DummyObjectData);
    let ev = Event {
        sender: sid.clone(),
        opcode: 3,
        args: vec![Arg::New(ObjectId::nil())],
    };
    let err = conn
        .send_message(ev, Some(DummyObjectData), Some((wl_registry_interface(), 6)))
        .unwrap_err();
    assert!(matches!(err.kind(), ErrorKind::InvalidInterface));
    assert!(conn.outbound.is_empty());
}

#[test]
fn unknown_opcode_is_other() {
    let mut conn = connected();
    let sender = conn.display_id();
    let ev = Event {
        sender,
        opcode: 99,
        args: Vec::new(),
    };
    let err = conn.send_message(ev, None, None).unwrap_err();
    assert!(matches!(err.kind(), ErrorKind::Other));
}

#[test]
fn dead_object_argument_is_submit_error() {
    let mut conn = connected();
    let q = EventQueue { q: 0 };
    let sid = q.manage(&mut conn, wl_surface_interface(), DummyObjectData);
    let bid = q.manage(&mut conn, yage::wayland::interfaces::wl_buffer_interface(), DummyObjectData);
    // kill the buffer, then try to attach it
    let destroy = Event {
        sender: bid.clone(),
        opcode: 0,
        args: Vec::new(),
    };
    conn.send_message(destroy, None, None).unwrap();
    assert!(!conn.is_alive(&bid));
    let outbound_before = conn.outbound.len();
    let (ev, cs) = surface::Request::Attach {
        buffer: bid,
        x_pos: 0,
        y_pos: 0,
    }
    .write(&conn, &sid)
    .unwrap();
    let err = conn.send_message(ev, None, cs).unwrap_err();
    assert!(matches!(err.kind(), ErrorKind::SubmitError));
    assert_eq!(conn.outbound.len(), outbound_before);
}

#[test]
fn attach_encodes_object_and_integers() {
    let mut conn = connected();
    let q = EventQueue { q: 0 };
    let sid = q.manage(&mut conn, wl_surface_interface(), DummyObjectData);
    let bid = q.manage(&mut conn, yage::wayland::interfaces::wl_buffer_interface(), DummyObjectData);
    let bh = bid.proxy.unwrap();
    let (ev, cs) = surface::Request::Attach {
        buffer: bid,
        x_pos: -4,
        y_pos: 9,
    }
    .write(&conn, &sid)
    .unwrap();
    conn.send_message(ev, None, cs).unwrap();
    let wire = conn.outbound.last().unwrap();
    assert_eq!(wire.opcode, 1);
    assert!(matches!(wire.args[0], NativeArg::Object(Some(h)) if h == bh));
    assert!(matches!(wire.args[1], NativeArg::Int(-4)));
    assert!(matches!(wire.args[2], NativeArg::Int(9)));
}

#[test]
fn flush_marks_everything_written() {
    let mut conn = connected();
    let sender = conn.display_id();
    let (ev, cs) = display::Request::GetRegistry.write(&conn, &sender).unwrap();
    conn.send_message(ev, Some(DummyObjectData), cs).unwrap();
    assert_eq!(conn.flushed, 0);
    conn.flush().unwrap();
    assert_eq!(conn.flushed, conn.outbound.len());
}

#[test]
fn weak_queue_upgrades_while_it_exists() {
    let mut conn = connected();
    let q = conn.queue().unwrap();
    let weak = q.downgrade();
    assert!(weak.upgrade(&conn).is_some());
    let far = yage::wayland::event_loop::WeakQueue { q: 99 };
    assert!(far.upgrade(&conn).is_none());
}

#[test]
fn liveness_never_comes_back() {
    let mut conn = connected();
    let q = EventQueue { q: 0 };
    let sid = q.manage(&mut conn, wl_surface_interface(), DummyObjectData);
    let (ev, cs) = surface::Request::Destroy.write(&conn, &sid).unwrap();
    conn.send_message(ev, None, cs).unwrap();
    assert!(!conn.is_alive(&sid));
    // later activity on the connection never revives the old identity
    let other = q.manage(&mut conn, wl_surface_interface(), DummyObjectData);
    let (ev, cs) = surface::Request::Commit.write(&conn, &other).unwrap();
    conn.send_message(ev, None, cs).unwrap();
    assert!(!conn.is_alive(&sid));
    assert!(conn.is_alive(&other));
}
