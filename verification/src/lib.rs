//! Focus-tracking and overlay-synchronization engine.
//!
//! Tracks which window holds input focus, resolves the monitor it occupies by
//! majority overlap area, and drives a set of decorative overlay surfaces (a
//! border around the focused window, a transient flash on monitor change, and
//! per-monitor badges) through flicker-free transitions.  Everything here is
//! pure state and geometry: the operating-system queries and the actual
//! surface manipulation live outside the library and act on the decisions
//! returned by it.

pub mod border;
pub mod color;
pub mod command;
pub mod config;
pub mod engine;
pub mod flash;
pub mod focus;
pub mod geometry;
pub mod indicator;
pub mod monitor;
pub mod state;
pub mod text;
