//! Verified core of a browser-canvas windowing bridge.
//!
//! The bridge attaches a user-supplied drawing/event handler to a single
//! on-screen canvas surface. This crate holds the verified logic: the
//! redraw-coalescing scheduler, the custom-event dispatcher, the event
//! subscription registry, the window-control facade decisions, the key and
//! mouse-button translation tables, and the surface bridge state machine that
//! routes native events to handler notifications. The unverified host layer
//! performs the actual browser calls and feeds plain values in and out.

pub mod bridge;
pub mod dimen;
pub mod dispatcher;
pub mod helper;
pub mod keymap;
pub mod registry;
pub mod scale;
pub mod text;
