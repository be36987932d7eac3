use yage::wayland::interfaces::{
    wl_callback_interface, wl_display_interface, wl_registry_interface, wl_surface_interface,
};
use yage::wayland::{same_interface, ArgKind, Interface, Message, ObjectId};

#[test]
fn test_iface() {
    let dbg = wl_display_interface();
    println!("{dbg:#?}");
}

#[test]
fn builders_fill_every_field() {
    let m = Message::with_sig("attach", vec![ArgKind::Object(true), ArgKind::Int])
        .since(2)
        .destructor(true)
        .ifaces(vec!["wl_buffer".to_owned()]);
    assert_eq!(m.name, "attach");
    assert_eq!(m.sig, vec![ArgKind::Object(true), ArgKind::Int]);
    assert_eq!(m.since, 2);
    assert!(m.is_destructor);
    assert_eq!(m.arg_interfaces, vec!["wl_buffer".to_owned()]);
    let child = wl_callback_interface();
    let m2 = Message::new("frame").child(&child);
    assert_eq!(m2.child.as_deref(), Some("wl_callback"));
    let i = Interface::new("wl_thing", 4)
        .requests(vec![Message::destroy()])
        .events(vec![Message::new("ping")])
        .iface(7);
    assert_eq!(i.name, "wl_thing");
    assert_eq!(i.version, 4);
    assert_eq!(i.requests.len(), 1);
    assert!(i.requests[0].is_destructor);
    assert_eq!(i.events.len(), 1);
    assert_eq!(i.raw_interface, Some(7));
}

#[test]
fn same_interface_goes_by_name() {
    let a = Interface::new("wl_output", 4);
    let b = Interface::new("wl_output", 2).requests(vec![Message::new("release")]);
    let c = Interface::new("wl_seat", 4);
    assert!(same_interface(&a, &b));
    assert!(!same_interface(&a, &c));
}

#[test]
fn nil_object_is_null_and_others_are_not() {
    let nil = ObjectId::nil();
    assert!(nil.is_null());
    assert_eq!(nil.id, 0);
    assert!(nil.proxy.is_none());
    assert!(nil.alive.is_none());
    let real = ObjectId {
        proxy: Some(0),
        id: 1,
        iface: wl_display_interface(),
        alive: Some(0),
    };
    assert!(!real.is_null());
}

#[test]
fn tables_declare_the_expected_messages() {
    let d = wl_display_interface();
    assert_eq!(d.requests[0].name, "sync");
    assert_eq!(d.requests[0].sig, vec![ArgKind::New]);
    assert_eq!(d.requests[0].child.as_deref(), Some("wl_callback"));
    let r = wl_registry_interface();
    assert_eq!(
        r.events[0].sig,
        vec![ArgKind::Uint, ArgKind::Str(false), ArgKind::Uint]
    );
    let s = wl_surface_interface();
    assert_eq!(s.requests.len(), 11);
    assert!(s.requests[0].is_destructor);
    assert_eq!(s.requests[3].child.as_deref(), Some("wl_callback"));
    let c = wl_callback_interface();
    assert!(c.events[0].is_destructor);
}
