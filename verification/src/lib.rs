//! Mesh discovery and connection control for small autonomous flight vehicles.
//!
//! The crate holds the three verified parts of the mesh subsystem: the
//! bounded, rank-ordered scan-result cache, the immutable mesh configuration,
//! and the controller state machine that sequences the radio calls of the
//! scan/rank/connect/disconnect cycle.

use vstd::prelude::*;

pub mod config;
pub mod mesh;
pub mod robots;
pub mod scan;

verus! {

/// A 6-byte physical address identifying a radio peer.
pub type Bssid = [u8; 6];

} // verus!
