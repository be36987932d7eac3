use vstd::prelude::*;

use crate::wayland::{ArgKind, Interface, Message};

verus! {

/// The root interface: its two requests each construct a child object, and
/// its error event carries the culprit object, an error code and a
/// description.
pub fn wl_display_interface() -> (r: Interface)
    ensures
        r.name@ == "wl_display"@,
        r.version == 1,
        r@.requests.len() == 2,
        r@.requests[0].name == "sync"@,
        r@.requests[0].sig == seq![ArgKind::New],
        r@.requests[0].child == Some("wl_callback"@),
        !r@.requests[0].is_destructor,
        r@.requests[1].name == "get_registry"@,
        r@.requests[1].sig == seq![ArgKind::New],
        r@.requests[1].child == Some("wl_registry"@),
        !r@.requests[1].is_destructor,
        r@.events.len() == 2,
        r@.events[0].name == "error"@,
        r@.events[0].sig == seq![ArgKind::Object(false), ArgKind::Uint, ArgKind::Str(false)],
        r@.events[0].child is None,
        !r@.events[0].is_destructor,
        r@.events[1].name == "delete_id"@,
        r@.events[1].sig == seq![ArgKind::Uint],
        !r@.events[1].is_destructor,
{
    Interface::new("wl_display", 1).requests(
        vec![
            Message::with_sig("sync", vec![ArgKind::New]).child(&wl_callback_interface()),
            Message::with_sig("get_registry", vec![ArgKind::New]).child(&wl_registry_interface()),
        ],
    ).events(
        vec![
            Message::with_sig(
                "error",
                vec![ArgKind::Object(false), ArgKind::Uint, ArgKind::Str(false)],
            ),
            Message::with_sig("delete_id", vec![ArgKind::Uint]),
        ],
    )
}

/// The global registry: binding constructs a child whose interface only the
/// caller's override names; its events announce and withdraw globals.
pub fn wl_registry_interface() -> (r: Interface)
    ensures
        r.name@ == "wl_registry"@,
        r.version == 1,
        r@.requests.len() == 1,
        r@.requests[0].name == "bind"@,
        r@.requests[0].sig == seq![ArgKind::Uint, ArgKind::New],
        r@.requests[0].child is None,
        !r@.requests[0].is_destructor,
        r@.events.len() == 2,
        r@.events[0].name == "global"@,
        r@.events[0].sig == seq![ArgKind::Uint, ArgKind::Str(false), ArgKind::Uint],
        !r@.events[0].is_destructor,
        r@.events[1].name == "global_remove"@,
        r@.events[1].sig == seq![ArgKind::Uint],
        !r@.events[1].is_destructor,
{
    Interface::new("wl_registry", 1).requests(
        vec![Message::with_sig("bind", vec![ArgKind::Uint, ArgKind::New])],
    ).events(
        vec![
            Message::with_sig(
                "global",
                vec![ArgKind::Uint, ArgKind::Str(false), ArgKind::Uint],
            ),
            Message::with_sig("global_remove", vec![ArgKind::Uint]),
        ],
    )
}

/// A one-shot callback; its only event is a destructor.
pub fn wl_callback_interface() -> (r: Interface)
    ensures
        r.name@ == "wl_callback"@,
        r.version == 1,
        r@.requests.len() == 0,
        r@.events.len() == 1,
        r@.events[0].name == "done"@,
        r@.events[0].sig == seq![ArgKind::Uint],
        r@.events[0].is_destructor,
{
    Interface::new("wl_callback", 1).events(
        vec![Message::with_sig("done", vec![ArgKind::Uint]).destructor(true)],
    )
}

/// A drawable surface: the full request table, including the destructor at
/// opcode 0 and the frame-callback constructor at opcode 3.
pub fn wl_surface_interface() -> (r: Interface)
    ensures
        r.name@ == "wl_surface"@,
        r.version == 6,
        r@.requests.len() == 11,
        r@.requests[0].name == "destroy"@,
        r@.requests[0].sig == Seq::<ArgKind>::empty(),
        r@.requests[0].is_destructor,
        r@.requests[1].name == "attach"@,
        r@.requests[1].sig == seq![ArgKind::Object(true), ArgKind::Int, ArgKind::Int],
        r@.requests[1].arg_interfaces == seq!["wl_buffer"@],
        r@.requests[2].name == "damage"@,
        r@.requests[2].sig == seq![ArgKind::Int, ArgKind::Int, ArgKind::Int, ArgKind::Int],
        r@.requests[3].name == "frame"@,
        r@.requests[3].sig == seq![ArgKind::New],
        r@.requests[3].child == Some("wl_callback"@),
        r@.requests[4].name == "set_opaque_region"@,
        r@.requests[4].sig == seq![ArgKind::Object(true)],
        r@.requests[4].arg_interfaces == seq!["wl_region"@],
        r@.requests[5].name == "set_input_region"@,
        r@.requests[5].sig == seq![ArgKind::Object(true)],
        r@.requests[5].arg_interfaces == seq!["wl_region"@],
        r@.requests[6].name == "commit"@,
        r@.requests[6].sig == Seq::<ArgKind>::empty(),
        r@.requests[7].name == "set_buffer_transform"@,
        r@.requests[7].sig == seq![ArgKind::Int],
        r@.requests[8].name == "set_buffer_scale"@,
        r@.requests[8].sig == seq![ArgKind::Int],
        r@.requests[9].name == "damage_buffer"@,
        r@.requests[9].sig == seq![ArgKind::Int, ArgKind::Int],
        r@.requests[10].name == "offset"@,
        r@.requests[10].sig == seq![ArgKind::Int, ArgKind::Int],
        forall|i: int| 1 <= i < 11 ==> !r@.requests[i].is_destructor,
        r@.events.len() == 4,
        r@.events[0].name == "enter"@,
        r@.events[0].sig == seq![ArgKind::Object(false)],
        r@.events[0].arg_interfaces == seq!["wl_output"@],
        r@.events[1].name == "leave"@,
        r@.events[1].sig == seq![ArgKind::Object(false)],
        r@.events[1].arg_interfaces == seq!["wl_output"@],
        r@.events[2].name == "preferred_buffer_scale"@,
        r@.events[2].sig == seq![ArgKind::Int],
        r@.events[3].name == "preferred_buffer_transform"@,
        r@.events[3].sig == seq![ArgKind::Uint],
        forall|i: int| 0 <= i < 4 ==> !r@.events[i].is_destructor,
{
    Interface::new("wl_surface", 6).requests(
        vec![
            Message::destroy(),
            Message::with_sig(
                "attach",
                vec![ArgKind::Object(true), ArgKind::Int, ArgKind::Int],
            ).ifaces(vec!["wl_buffer".to_owned()]),
            Message::with_sig(
                "damage",
                vec![ArgKind::Int, ArgKind::Int, ArgKind::Int, ArgKind::Int],
            ),
            Message::with_sig("frame", vec![ArgKind::New]).child(&wl_callback_interface()),
            Message::with_sig("set_opaque_region", vec![ArgKind::Object(true)]).ifaces(
                vec!["wl_region".to_owned()],
            ),
            Message::with_sig("set_input_region", vec![ArgKind::Object(true)]).ifaces(
                vec!["wl_region".to_owned()],
            ),
            Message::with_sig("commit", Vec::new()),
            Message::with_sig("set_buffer_transform", vec![ArgKind::Int]).since(2),
            Message::with_sig("set_buffer_scale", vec![ArgKind::Int]).since(3),
            Message::with_sig("damage_buffer", vec![ArgKind::Int, ArgKind::Int]).since(4),
            Message::with_sig("offset", vec![ArgKind::Int, ArgKind::Int]).since(5),
        ],
    ).events(
        vec![
            Message::with_sig("enter", vec![ArgKind::Object(false)]).ifaces(
                vec!["wl_output".to_owned()],
            ),
            Message::with_sig("leave", vec![ArgKind::Object(false)]).ifaces(
                vec!["wl_output".to_owned()],
            ),
            Message::with_sig("preferred_buffer_scale", vec![ArgKind::Int]).since(6),
            Message::with_sig("preferred_buffer_transform", vec![ArgKind::Uint]).since(6),
        ],
    )
}

/// An output (a monitor); release is a destructor from version 3.
pub fn wl_output_interface() -> (r: Interface)
    ensures
        r.name@ == "wl_output"@,
        r.version == 4,
        r@.requests.len() == 1,
        r@.events.len() == 6,
{
    Interface::new("wl_output", 4).requests(
        vec![Message::new("release").destructor(true).since(3)],
    ).events(
        vec![
            Message::with_sig(
                "geometry",
                vec![
                    ArgKind::Int,
                    ArgKind::Int,
                    ArgKind::Int,
                    ArgKind::Int,
                    ArgKind::Int,
                    ArgKind::Str(false),
                    ArgKind::Str(false),
                    ArgKind::Int,
                ],
            ),
            Message::with_sig(
                "mode",
                vec![ArgKind::Uint, ArgKind::Int, ArgKind::Int, ArgKind::Int],
            ),
            Message::new("done").since(2),
            Message::with_sig("scale", vec![ArgKind::Int]).since(2),
            Message::with_sig("name", vec![ArgKind::Str(false)]).since(4),
            Message::with_sig("description", vec![ArgKind::Str(false)]).since(4),
        ],
    )
}

/// A region of a surface.
pub fn wl_region_interface() -> (r: Interface)
    ensures
        r.name@ == "wl_region"@,
        r.version == 4,
        r@.requests.len() == 3,
        r@.requests[0].is_destructor,
{
    Interface::new("wl_region", 4).requests(
        vec![
            Message::destroy(),
            Message::with_sig(
                "add",
                vec![ArgKind::Int, ArgKind::Int, ArgKind::Int, ArgKind::Int],
            ),
            Message::with_sig(
                "subtract",
                vec![ArgKind::Int, ArgKind::Int, ArgKind::Int, ArgKind::Int],
            ),
        ],
    )
}

/// A pixel buffer attached to surfaces.
pub fn wl_buffer_interface() -> (r: Interface)
    ensures
        r.name@ == "wl_buffer"@,
        r.version == 1,
        r@.requests.len() == 1,
        r@.requests[0].is_destructor,
        r@.events.len() == 1,
{
    Interface::new("wl_buffer", 1).requests(vec![Message::destroy()]).events(
        vec![Message::new("release")],
    )
}

/// An input seat; its constructors hand out the pointer, keyboard and
/// touch devices.
pub fn wl_seat_interface() -> (r: Interface)
    ensures
        r.name@ == "wl_seat"@,
        r.version == 10,
        r@.requests.len() == 4,
        r@.events.len() == 2,
{
    Interface::new("wl_seat", 10).requests(
        vec![
            Message::with_sig("get_pointer", vec![ArgKind::New]).child(&wl_pointer_interface()),
            Message::with_sig("get_keyboard", vec![ArgKind::New]).child(
                &wl_keyboard_interface(),
            ),
            Message::with_sig("get_touch", vec![ArgKind::New]).child(&wl_touch_interface()),
            Message::with_sig("release", Vec::new()).destructor(true).since(5),
        ],
    ).events(
        vec![
            Message::with_sig("capabilites", vec![ArgKind::Uint]),
            Message::with_sig("name", vec![ArgKind::Str(false)]).since(2),
        ],
    )
}

/// The pointer device.
pub fn wl_pointer_interface() -> (r: Interface)
    ensures
        r.name@ == "wl_pointer"@,
        r.version == 10,
        r@.requests.len() == 2,
        r@.events.len() == 11,
{
    Interface::new("wl_pointer", 10).requests(
        vec![
            Message::with_sig(
                "set_cursor",
                vec![ArgKind::Uint, ArgKind::Object(true), ArgKind::Int, ArgKind::Int],
            ).ifaces(vec!["wl_surface".to_owned()]),
            Message::with_sig("release", Vec::new()).since(3).destructor(true),
        ],
    ).events(
        vec![
            Message::with_sig(
                "enter",
                vec![ArgKind::Uint, ArgKind::Object(false), ArgKind::Int, ArgKind::Int],
            ).ifaces(vec!["wl_surface".to_owned()]),
            Message::with_sig("leave", vec![ArgKind::Uint, ArgKind::Object(false)]).ifaces(
                vec!["wl_surface".to_owned()],
            ),
            Message::with_sig("motion", vec![ArgKind::Uint, ArgKind::Int, ArgKind::Int]),
            Message::with_sig(
                "button",
                vec![ArgKind::Uint, ArgKind::Uint, ArgKind::Uint, ArgKind::Uint],
            ),
            Message::with_sig("axis", vec![ArgKind::Uint, ArgKind::Uint, ArgKind::Fixed]),
            Message::with_sig("frame", Vec::new()).since(5),
            Message::with_sig("axis_source", vec![ArgKind::Uint]).since(5),
            Message::with_sig("axis_stop", vec![ArgKind::Uint, ArgKind::Uint]).since(5),
            Message::with_sig("axis_discrete", vec![ArgKind::Uint, ArgKind::Int]).since(5),
            Message::with_sig("axis_value120", vec![ArgKind::Uint, ArgKind::Int]).since(8),
            Message::with_sig("axis_relative_direction", vec![ArgKind::Uint, ArgKind::Uint]).since(
                9,
            ),
        ],
    )
}

/// The keyboard device.
pub fn wl_keyboard_interface() -> (r: Interface)
    ensures
        r.name@ == "wl_keyboard"@,
        r.version == 10,
        r@.requests.len() == 1,
        r@.events.len() == 6,
{
    Interface::new("wl_keyboard", 10).requests(
        vec![Message::new("release").destructor(true).since(3)],
    ).events(
        vec![
            Message::with_sig("keymap", vec![ArgKind::Uint, ArgKind::Fd, ArgKind::Uint]),
            Message::with_sig(
                "enter",
                vec![ArgKind::Uint, ArgKind::Object(false), ArgKind::Array],
            ).ifaces(vec!["wl_surface".to_owned()]),
            Message::with_sig("leave", vec![ArgKind::Uint, ArgKind::Object(false)]).ifaces(
                vec!["wl_surface".to_owned()],
            ),
            Message::with_sig(
                "key",
                vec![ArgKind::Uint, ArgKind::Uint, ArgKind::Uint, ArgKind::Uint],
            ),
            Message::with_sig(
                "modifiers",
                vec![ArgKind::Uint, ArgKind::Uint, ArgKind::Uint, ArgKind::Uint, ArgKind::Uint],
            ),
            Message::with_sig("repeat_info", vec![ArgKind::Int, ArgKind::Int]).since(4),
        ],
    )
}

/// The touch device.
pub fn wl_touch_interface() -> (r: Interface)
    ensures
        r.name@ == "wl_touch"@,
        r.version == 10,
        r@.requests.len() == 1,
        r@.events.len() == 7,
{
    Interface::new("wl_touch", 10).requests(
        vec![Message::new("release").destructor(true).since(3)],
    ).events(
        vec![
            Message::with_sig(
                "down",
                vec![
                    ArgKind::Uint,
                    ArgKind::Uint,
                    ArgKind::Object(false),
                    ArgKind::Int,
                    ArgKind::Fixed,
                    ArgKind::Fixed,
                ],
            ).ifaces(vec!["wl_surface".to_owned()]),
            Message::with_sig("up", vec![ArgKind::Uint, ArgKind::Uint, ArgKind::Int]),
            Message::with_sig(
                "motion",
                vec![ArgKind::Uint, ArgKind::Int, ArgKind::Fixed, ArgKind::Fixed],
            ),
            Message::new("frame"),
            Message::new("cancel"),
            Message::with_sig("shape", vec![ArgKind::Int, ArgKind::Fixed, ArgKind::Fixed]).since(
                6,
            ),
            Message::with_sig("orientation", vec![ArgKind::Int, ArgKind::Fixed]).since(6),
        ],
    )
}

} // verus!
