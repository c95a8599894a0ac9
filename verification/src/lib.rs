//! Input routing for a display-server compositor: per-seat device bookkeeping,
//! key interception, pointer geometry, hit-testing and event dispatch.

pub mod bindings;
pub mod devices;
pub mod dispatch;
pub mod events;
pub mod geometry;
pub mod hotplug;
pub mod keyboard;
pub mod keys;
pub mod pointer;
pub mod scene;
pub mod scroll;
pub mod seat;
pub mod state;
pub mod windows;
