//! Client-side object-proxy and message-marshaling layer for a binary,
//! object-oriented display-server protocol, together with the small utility
//! types that the surrounding engine shares with it.
//!
//! The native transport (socket I/O, byte-level framing) is an external
//! collaborator: here it is modeled by an explicit proxy arena and a buffer
//! of tagged argument slots, so the identity, liveness, versioning and
//! argument-shape rules can be stated and proved.

pub mod array;
pub mod asset;
pub mod assets;
pub mod atomic;
pub mod bimap;
pub mod builder;
pub mod cache;
pub mod errors;
pub mod events;
pub mod fs;
pub mod harness;
pub mod header;
pub mod list;
pub mod machine_cog;
pub mod renderer;
pub mod state;
pub mod states;
pub mod wayland;
pub mod xdg;
