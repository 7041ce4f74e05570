//! Robot hardware interfaces consumed by the flight side of the firmware.

use vstd::prelude::*;

verus! {

/// Quad-copter motor output interface, implemented by each robot's
/// hardware layer.
pub trait QuadCopterMotors {
    /// Set the velocity percent for all four motors.
    fn set_data(&self, velocities_pct: [u8; 4]);
}

/// The F405 flight-controller board. Its peripheral handles stay with the
/// hardware bring-up layer; this value stands for the board where an
/// interface asks for one.
pub struct F405Quadcopter {}

impl F405Quadcopter {
    /// A handle standing for the board.
    pub fn new() -> F405Quadcopter {
        F405Quadcopter {}
    }
}

} // verus!
