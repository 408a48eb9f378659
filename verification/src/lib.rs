//! A uniform interface for reading and writing the system clipboard,
//! dispatched to platform backends: a Wayland adapter around a vendor
//! clipboard client, and an always-failing stub for platforms without
//! clipboard support.

pub mod ios;
pub mod wayland;
