//! What the pilot's effects need of the hardware.
use vstd::prelude::*;

verus! {

/// Drive system operations; durations in milliseconds, 0 for "until the
/// next command".
pub trait Chassis {
    fn set_target_time(&mut self, duration: u64);

    fn stop(&mut self);

    fn pause(&mut self);

    fn forward(&mut self, duration: u64);

    fn backward(&mut self, duration: u64);

    fn left(&mut self, duration: u64);

    fn right(&mut self, duration: u64);
}

/// A motor.
pub trait Motor {
    /// Rotate clockwise.
    fn cw(&mut self);

    /// Rotate counterclockwise.
    fn ccw(&mut self);

    /// Stop.
    fn stop(&mut self);
}

/// A switch that reports whether a limit is reached.
pub trait LimitSwitch {
    /// Whether the limit is reached.
    fn get(&self) -> bool;
}

} // verus!
