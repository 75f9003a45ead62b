//! Supervision and log-tail rendering for a small fleet of worker processes.
//!
//! The crate has two halves: a registry of launched worker roles, drained
//! once during shutdown, and a log-tail engine that turns the current lines
//! of a log file into a bounded, HTML-escaped, ordered text snippet.
use vstd::prelude::*;

pub mod escape;
pub mod registry;
pub mod role;
pub mod supervisor;
pub mod tail;
pub mod window;

verus! {

/// The number of lines a rendered log window may hold at most.
pub const WINDOW_LIMIT: usize = 100;

} // verus!
