//! Frame orchestration for a small real-time rendering harness.
//!
//! The crate holds the decisions of the harness as verified code over plain
//! values: which swap chain the surface needs, what a frame's command
//! sequence looks like, how the overlay clock advances, and how the event
//! loop moves between its states. The embedding program owns the window and
//! the GPU; it feeds events in and performs the actions that come back.

pub mod app;
pub mod error;
pub mod event;
pub mod render;
pub mod ui;
