//! Commands and errors of the water fountain pump loop.

use vstd::prelude::*;

verus! {

/// Commands sent to the fountain controller from the shell.
#[derive(Clone, Copy, PartialEq, Eq, Structural, Debug)]
pub enum FountainCommand {
    /// Set the pump speed (percent).
    SetSpeed(u8),
    /// Stop the pump.
    Stop,
}

/// Errors of the fountain control loop.
#[derive(Clone, Copy, PartialEq, Eq, Debug)]
pub enum FountainError<PE, SE> {
    /// The pump driver failed.
    Pump(PE),
    /// The water sensor failed.
    Sensor(SE),
}

} // verus!
