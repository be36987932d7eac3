use vstd::prelude::*;

use crate::wayland::ObjectId;

verus! {

/// The typed requests of the window-manager base object.
#[derive(Debug)]
pub enum XdgBaseRequest {
    CreatePositioner { id: ObjectId },
    GetSurface { wl_surface: ObjectId },
    Pong { serial: u32 },
    Destroy,
}

/// The typed events of the window-manager base object.
#[derive(Clone, Copy, PartialEq, Eq, Structural, Debug)]
pub enum XdgBaseEvent {
    Ping { serial: u32 },
}

/// The typed requests of a positioner.
#[derive(Clone, Copy, PartialEq, Eq, Structural, Debug)]
pub enum XdgPositionerRequest {
    SetSize { x: i32, y: i32 },
    SetAnchorRect { x: i32, y: i32, width: i32, height: u32 },
    SetAnchor { anchor: u32 },
    SetGravity { gravity: u32 },
    SetConstraintAdjustment { constraint: u32 },
    SetOffset { x: i32, y: i32 },
    SetReactive,
    SetParentSize { parent_width: i32, parent_height: i32 },
    Destroy,
}

/// A positioner sends no events; the single variant only keeps the type
/// inhabited.
#[derive(Clone, Copy, PartialEq, Eq, Structural, Debug)]
pub enum XdgPositionerEvent {
    NoEvent,
}

/// The typed requests of a toplevel window.
#[derive(Debug)]
pub enum XdgToplevelRequest {
    Destroy,
    SetParent { obj: Option<ObjectId> },
    SetTitle { title: String },
    SetAppId { id: String },
    ShowWindowMenu { seat: ObjectId, serial: u32, x: i32, y: i32 },
    Move { seat: ObjectId, serial: u32 },
    Resize { seat: ObjectId, serial: u32, edges: u32 },
    SetMaxSize { max_width: i32, max_height: i32 },
    SetMinSize { min_width: i32, mid_height: i32 },
    SetMaximized,
    UnsetMaximized,
    SetFullscreen { output: ObjectId },
    UnsetFullscreen,
    SetMinimized,
}

/// The typed events of a toplevel window.
#[derive(Debug)]
pub enum XdgToplevelEvent {
    Configure { x: i32, y: i32, array: Vec<u8> },
    Close,
    ConfigureBounds { x: i32, y: i32 },
    Capabilities { array: Vec<u8> },
}

/// The typed requests of a popup.
#[derive(Debug)]
pub enum XdgPopupRequest {
    Destroy,
    Grab { seat: ObjectId, serial: u32 },
    Repostion { positioner: ObjectId, serial: u32 },
}

/// The typed events of a popup.
#[derive(Clone, Copy, PartialEq, Eq, Structural, Debug)]
pub enum XdgPopupEvents {
    Configure { x: i32, y: i32, width: i32, height: i32 },
    Done,
    Repositioned { token: u32 },
}

} // verus!
