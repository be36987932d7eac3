use vstd::prelude::*;

use crate::wayland::interfaces::{wl_output_interface, wl_seat_interface, wl_surface_interface};
use crate::wayland::{ArgKind, Interface, Message};

verus! {

/// The window-manager base object; its surface and positioner constructors
/// declare their children, and `ping` must be answered with `pong`.
pub fn xdg_wm_interface() -> (r: Interface)
    ensures
        r.name@ == "xdg_wm_base"@,
        r.version == 7,
        r@.requests.len() == 4,
        r@.requests[0].is_destructor,
        r@.requests[1].name == "create_positioner"@,
        r@.requests[1].sig == seq![ArgKind::New],
        r@.requests[1].child == Some("xdg_positioner"@),
        r@.requests[2].name == "get_xdg_surface"@,
        r@.requests[2].sig == seq![ArgKind::New, ArgKind::Object(false)],
        r@.requests[2].child == Some("xdg_surface"@),
        r@.events.len() == 1,
        r@.events[0].name == "ping"@,
        r@.events[0].sig == seq![ArgKind::Uint],
{
    Interface::new("xdg_wm_base", 7).requests(
        vec![
            Message::destroy(),
            Message::with_sig("create_positioner", vec![ArgKind::New]).child(
                &xdg_positioner_interface(),
            ),
            Message::with_sig("get_xdg_surface", vec![ArgKind::New, ArgKind::Object(false)]).child(
                &xdg_surface_interface(),
            ).ifaces(vec!["wl_surface".to_owned()]),
            Message::with_sig("pong", vec![ArgKind::Uint]),
        ],
    ).events(vec![Message::with_sig("ping", vec![ArgKind::Uint])])
}

/// The positioner: placement rules for popups.
pub fn xdg_positioner_interface() -> (r: Interface)
    ensures
        r.name@ == "xdg_positioner"@,
        r.version == 7,
        r@.requests.len() == 9,
        r@.requests[0].is_destructor,
{
    Interface::new("xdg_positioner", 7).requests(
        vec![
            Message::destroy(),
            Message::with_sig("set_size", vec![ArgKind::Int, ArgKind::Int]),
            Message::with_sig(
                "set_anchor_rect",
                vec![ArgKind::Int, ArgKind::Int, ArgKind::Int, ArgKind::Int],
            ),
            Message::with_sig("set_anchor", vec![ArgKind::Uint]),
            Message::with_sig("set_gravity", vec![ArgKind::Uint]),
            Message::with_sig("set_constraint_adjustment", vec![ArgKind::Uint]),
            Message::with_sig("set_offset", vec![ArgKind::Int, ArgKind::Int]),
            Message::with_sig("set_reactive", Vec::new()).since(3),
            Message::with_sig("set_parent_size", vec![ArgKind::Int, ArgKind::Int]).since(3),
        ],
    )
}

/// The window-manager surface role; its toplevel and popup constructors
/// declare their children.
pub fn xdg_surface_interface() -> (r: Interface)
    ensures
        r.name@ == "xdg_surface"@,
        r.version == 7,
        r@.requests.len() == 5,
        r@.requests[0].is_destructor,
        r@.requests[1].name == "set_toplevel"@,
        r@.requests[1].child == Some("xdg_toplevel"@),
        r@.requests[2].name == "get_popup"@,
        r@.requests[2].child == Some("xdg_popup"@),
        r@.events.len() == 1,
{
    Interface::new("xdg_surface", 7).requests(
        vec![
            Message::destroy(),
            Message::with_sig("set_toplevel", vec![ArgKind::New]).child(
                &xdg_toplevel_interface(),
            ),
            Message::with_sig(
                "get_popup",
                vec![ArgKind::New, ArgKind::Object(true), ArgKind::Object(false)],
            ).child(&xdg_popup_interface()).ifaces(
                vec!["xdg_surface".to_owned(), "xdg_positioner".to_owned()],
            ),
            Message::with_sig(
                "set_window_geometry",
                vec![ArgKind::Int, ArgKind::Int, ArgKind::Int, ArgKind::Int],
            ),
            Message::with_sig("ack_configure", vec![ArgKind::Uint]),
        ],
    ).events(vec![Message::with_sig("configure", vec![ArgKind::Uint])])
}

/// A toplevel window.
pub fn xdg_toplevel_interface() -> (r: Interface)
    ensures
        r.name@ == "xdg_toplevel"@,
        r.version == 7,
        r@.requests.len() == 14,
        r@.requests[0].is_destructor,
        r@.events.len() == 4,
{
    Interface::new("xdg_toplevel", 7).requests(
        vec![
            Message::destroy(),
            Message::with_sig("set_parent", vec![ArgKind::Object(true)]).ifaces(
                vec!["xdg_toplevel".to_owned()],
            ),
            Message::with_sig("set_title", vec![ArgKind::Str(false)]),
            Message::with_sig("set_app_id", vec![ArgKind::Str(false)]),
            Message::with_sig(
                "show_window_menu",
                vec![ArgKind::Object(false), ArgKind::Uint, ArgKind::Int, ArgKind::Int],
            ).ifaces(vec!["wl_seat".to_owned()]),
            Message::with_sig("move", vec![ArgKind::Object(false), ArgKind::Uint]).ifaces(
                vec!["wl_seat".to_owned()],
            ),
            Message::with_sig(
                "resize",
                vec![ArgKind::Object(false), ArgKind::Uint, ArgKind::Uint],
            ).ifaces(vec!["wl_seat".to_owned()]),
            Message::with_sig("set_max_size", vec![ArgKind::Int, ArgKind::Int]),
            Message::with_sig("set_min_size", vec![ArgKind::Int, ArgKind::Int]),
            Message::with_sig("set_maximized", Vec::new()),
            Message::with_sig("unset_maximized", Vec::new()),
            Message::with_sig("set_fullscreen", vec![ArgKind::Object(true)]).ifaces(
                vec!["wl_output".to_owned()],
            ),
            Message::with_sig("unset_fullscreen", Vec::new()),
            Message::with_sig("set_minimized", Vec::new()),
        ],
    ).events(
        vec![
            Message::with_sig("configure", vec![ArgKind::Int, ArgKind::Int, ArgKind::Array]),
            Message::with_sig("close", Vec::new()),
            Message::with_sig("configure_bounds", vec![ArgKind::Int, ArgKind::Int]).since(4),
            Message::with_sig("wm_capabilities", vec![ArgKind::Array]).since(5),
        ],
    )
}

/// A popup window.
pub fn xdg_popup_interface() -> (r: Interface)
    ensures
        r.name@ == "xdg_popup"@,
        r.version == 7,
        r@.requests.len() == 3,
        r@.requests[0].is_destructor,
        r@.events.len() == 3,
{
    Interface::new("xdg_popup", 7).requests(
        vec![
            Message::destroy(),
            Message::with_sig("grab", vec![ArgKind::Object(false), ArgKind::Uint]).ifaces(
                vec!["wl_seat".to_owned()],
            ),
            Message::with_sig("reposition", vec![ArgKind::Object(false), ArgKind::Uint]).since(
                3,
            ).ifaces(vec!["xdg_positioner".to_owned()]),
        ],
    ).events(
        vec![
            Message::with_sig(
                "configure",
                vec![ArgKind::Int, ArgKind::Int, ArgKind::Int, ArgKind::Int],
            ),
            Message::with_sig("popup_done", Vec::new()),
            Message::with_sig("repositioned", vec![ArgKind::Uint]).since(3),
        ],
    )
}

} // verus!
