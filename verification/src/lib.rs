//! Core of a small interactive GPU rendering demo.
//!
//! The library models the render-state lifecycle of the demo as verified,
//! GPU-free logic: the static geometry tables for the two shapes, the byte
//! layout of the vertex and index buffers, the surface-configuration
//! decisions, and the event-driven state machine (resize, key toggles,
//! mouse-derived tint, per-frame planning). A thin unverified shell drives
//! the window and the GPU from the decisions made here.

pub mod consts;
pub mod init;
pub mod state;
pub mod vertex;
