//! Lifecycle controller for an always-on-top desktop overlay that shows
//! itself only while a target game process is running.
//!
//! The crate holds the verified core: the process-probe output filter, the
//! window placement computation, and the visibility state machine driven by
//! the host event loop. Window-system and process-spawning calls live in the
//! surrounding application, which hands plain values in and carries the
//! returned actions out.

pub mod controller;
pub mod placement;
pub mod probe;
