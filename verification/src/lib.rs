//! A cross-thread rendering bridge.
//!
//! A rendering engine runs on a background worker and produces ordered
//! batches of encoded UI-mutation instructions; a single foreground event
//! loop owns every native window and applies those batches to the window's
//! rendering surface. This crate holds the bridge between the two: the
//! FIFO edit queue the worker fills and the foreground drains, the
//! readiness flag that holds patches back until a surface has finished
//! bootstrapping, the registry of live windows, and the dispatcher logic
//! that routes native and surface-originated events.

pub mod assets;
pub mod channel;
pub mod controller;
pub mod dispatch;
pub mod readiness;
pub mod message;
pub mod queue;
pub mod registry;
pub mod worker;
