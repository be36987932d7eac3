use yage::errors::{Error, ErrorKind};
use yage::wayland::callback;
use yage::wayland::connection::Connection;
use yage::wayland::data::DummyObjectData;
use yage::wayland::display;
use yage::wayland::event::Arg;
use yage::wayland::interfaces::{wl_display_interface, wl_registry_interface};
use yage::wayland::registry;
use yage::wayland::surface;
use yage::wayland::wire::{decode_value, encode_arg, NativeArg};
use yage::wayland::{ArgKind, ObjectId};

#[test]
fn value_kinds_round_trip_through_the_wire() {
    assert!(matches!(
        decode_value(ArgKind::Int, encode_arg(Arg::Int(-5))),
        Some(Arg::Int(-5))
    ));
    assert!(matches!(
        decode_value(ArgKind::Uint, encode_arg(Arg::Uint(9))),
        Some(Arg::Uint(9))
    ));
    assert!(matches!(
        decode_value(ArgKind::Fixed, encode_arg(Arg::Fixed(256))),
        Some(Arg::Fixed(256))
    ));
    assert!(matches!(
        decode_value(ArgKind::Fd, encode_arg(Arg::Fd(3))),
        Some(Arg::Fd(3))
    ));
    match decode_value(ArgKind::Str(false), encode_arg(Arg::Str(Some("hi".to_string())))) {
        Some(Arg::Str(Some(s))) => assert_eq!(s, "hi"),
        other => panic!("string did not survive the round trip: {:?}", other),
    }
    match decode_value(ArgKind::Array, encode_arg(Arg::Array(vec![1, 2, 3]))) {
        Some(Arg::Array(b)) => assert_eq!(b, vec![1, 2, 3]),
        other => panic!("array did not survive the round trip: {:?}", other),
    }
}

#[test]
fn nullability_is_enforced_on_decode() {
    // an absent string decodes only where the shape allows null
    assert!(matches!(
        decode_value(ArgKind::Str(true), NativeArg::Str(None)),
        Some(Arg::Str(None))
    ));
    assert!(decode_value(ArgKind::Str(false), NativeArg::Str(None)).is_none());
    // a slot of the wrong variant never decodes
    assert!(decode_value(ArgKind::Int, NativeArg::Uint(1)).is_none());
}

#[test]
fn display_events_parse_exactly() {
    let ev = display::Event::parse(1, vec![Arg::Uint(12)]).unwrap();
    assert!(matches!(ev, display::Event::Delete { id: 12 }));
    let culprit = ObjectId::nil();
    let ev = display::Event::parse(
        0,
        vec![
            Arg::Object(culprit),
            Arg::Uint(2),
            Arg::Str(Some("bad".to_string())),
        ],
    )
    .unwrap();
    match ev {
        display::Event::Error { code, message, .. } => {
            assert_eq!(code, 2);
            assert_eq!(message, "bad");
        }
        other => panic!("expected the error event, got {:?}", other),
    }
    let err = display::Event::parse(2, vec![Arg::Uint(0)]).unwrap_err();
    assert!(matches!(err.kind(), ErrorKind::SubmitError));
    let err = display::Event::parse(0, vec![Arg::Uint(0)]).unwrap_err();
    assert!(matches!(err.kind(), ErrorKind::SubmitError));
}

#[test]
fn three_records() {
    // the registry announcement scenario: opcode 0 with a numeric name,
    // an interface name and a version
    let ev = registry::Event::parse(
        0,
        vec![
            Arg::Uint(1),
            Arg::Str(Some("wl_compositor".to_string())),
            Arg::Uint(4),
        ],
    )
    .unwrap();
    match ev {
        registry::Event::Global {
            name,
            iface,
            version,
        } => {
            assert_eq!(name, 1);
            assert_eq!(iface, "wl_compositor");
            assert_eq!(version, 4);
        }
        other => panic!("expected a global announcement, got {:?}", other),
    }
    let ev = registry::Event::parse(1, vec![Arg::Uint(1)]).unwrap();
    assert!(matches!(ev, registry::Event::Remove { name: 1 }));
    assert_eq!(
        registry::Event::Global {
            name: 0,
            iface: String::new(),
            version: 0
        }
        .opcode(),
        0
    );
}

#[test]
fn callback_done_parses() {
    let ev = callback::Event::parse(0, vec![Arg::Uint(41)]).unwrap();
    assert!(matches!(ev, callback::Event::Done { callback_data: 41 }));
    assert!(callback::Event::parse(1, vec![Arg::Uint(41)]).is_err());
}

#[test]
fn surface_events_parse() {
    let ev = surface::Event::parse(2, vec![Arg::Int(2)]).unwrap();
    assert!(matches!(ev, surface::Event::PrefferedBufferScale { scale: 2 }));
    let ev = surface::Event::parse(3, vec![Arg::Uint(1)]).unwrap();
    assert!(matches!(
        ev,
        surface::Event::PrefferedBufferTransform { transform: 1 }
    ));
    assert!(surface::Event::parse(9, vec![Arg::Int(2)]).is_err());
}

#[test]
fn registry_bind_carries_the_interface_name() {
    let conn: Connection<DummyObjectData> =
        Connection::connect(wl_display_interface(), vec![wl_registry_interface()]);
    let sender = conn.display_id();
    let (ev, cs) = registry::Request::Bind {
        name: 3,
        iface: wl_registry_interface(),
        version: 1,
    }
    .write(&conn, &sender)
    .unwrap();
    assert_eq!(ev.opcode, 0);
    assert!(matches!(ev.args[0], Arg::Uint(3)));
    match &ev.args[1] {
        Arg::Str(Some(s)) => assert_eq!(s, "wl_registry"),
        other => panic!("expected the interface name, got {:?}", other),
    }
    assert!(matches!(ev.args[2], Arg::Uint(1)));
    let (iface, version) = cs.unwrap();
    assert_eq!(iface.name, "wl_registry");
    assert_eq!(version, 1);
}

#[test]
fn errors_carry_their_kind_and_payload() {
    let e = Error::new(ErrorKind::FlushError);
    assert!(matches!(e.kind(), ErrorKind::FlushError));
    assert!(e.payload.is_none());
    let e = ErrorKind::WouldBlock.into_error();
    assert!(matches!(e.kind(), ErrorKind::WouldBlock));
    let e = Error::with_capture(ErrorKind::NoWayland).with_payload("socket gone".to_string());
    assert!(matches!(e.kind(), ErrorKind::NoWayland));
    assert_eq!(e.payload.as_deref(), Some("socket gone"));
    let e = Error::new(ErrorKind::AllocError("wl_display"));
    assert!(matches!(e.kind(), ErrorKind::AllocError("wl_display")));
    assert!(matches!(
        Error::new(ErrorKind::LoadingFailure).kind(),
        ErrorKind::LoadingFailure
    ));
    assert!(matches!(
        Error::new(ErrorKind::DispatchError).kind(),
        ErrorKind::DispatchError
    ));
    assert!(matches!(
        Error::new(ErrorKind::InvalidId).kind(),
        ErrorKind::InvalidId
    ));
    assert!(matches!(
        Error::new(ErrorKind::InvalidInterface).kind(),
        ErrorKind::InvalidInterface
    ));
    assert!(matches!(
        Error::new(ErrorKind::SubmitError).kind(),
        ErrorKind::SubmitError
    ));
    assert!(matches!(Error::new(ErrorKind::Other).kind(), ErrorKind::Other));
}
