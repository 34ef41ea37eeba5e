//! Controller-level types shared between the system controller and its features.

use crate::model::{Direction, SystemLedState};
use vstd::prelude::*;

pub use crate::model::Device;

verus! {

/// Actions that can be mapped from gestures.
#[derive(Clone, Copy, PartialEq, Eq, Structural, Debug)]
pub enum GestureAction {
    /// No action.
    NoAction,
    /// Toggle system power state (Active <-> PowerDown).
    TogglePower,
}

/// Action returned by the proximity feature update.
#[derive(Clone, Copy, PartialEq, Eq, Structural, Debug)]
pub enum ProximityAction {
    /// No action.
    NoAction,
    /// Acquire a system wake lock.
    AcquireWakeLock,
    /// Release a system wake lock.
    ReleaseWakeLock,
    /// Wake the system if asleep.
    WakeSystem,
}

/// Battery status summary passed to features and stored on the system controller.
#[derive(Clone, Copy, PartialEq, Eq, Structural, Debug)]
pub struct BatteryStatus {
    /// True if the battery level is critically low.
    pub battery_critical: bool,
    /// True if the charger is connected and charging.
    pub charger_connected: bool,
    /// The LED pattern mapped from the current state of charge.
    pub soc_led_state: SystemLedState,
}

/// Which devices are active in the current system state.
#[derive(Clone, Copy, PartialEq, Eq, Structural, Debug)]
pub struct DeviceSupport {
    /// True if the motor is supported.
    pub motor: bool,
    /// True if battery monitoring is supported.
    pub battery: bool,
    /// True if proximity sensors are supported.
    pub proximity: bool,
    /// True if the LED is supported.
    pub led: bool,
    /// True if thermal monitoring is supported.
    pub thermal: bool,
}

/// Metadata associated with a proximity sensor.
#[derive(Clone, Copy, PartialEq, Eq, Structural, Debug)]
pub struct SensorMetadata {
    /// The physical direction the sensor is facing.
    pub direction: Direction,
}

/// Physical directions of the proximity sensors, as named on the command line.
#[derive(Clone, Copy, PartialEq, Eq, Structural, Debug)]
pub enum SensorDirection {
    /// North sensor.
    North,
    /// East sensor.
    East,
    /// West sensor.
    West,
}

/// The model direction of a sensor direction.
pub open spec fn spec_direction_of(d: SensorDirection) -> Direction {
    match d {
        SensorDirection::North => Direction::North,
        SensorDirection::East => Direction::East,
        SensorDirection::West => Direction::West,
    }
}

impl SensorDirection {
    /// Converts to the model direction.
    pub fn to_direction(self) -> (r: Direction)
        ensures
            r == spec_direction_of(self),
    {
        match self {
            SensorDirection::North => Direction::North,
            SensorDirection::East => Direction::East,
            SensorDirection::West => Direction::West,
        }
    }
}

/// Current thermal status of the system.
#[derive(Clone, Copy, PartialEq, Eq, Structural, Debug)]
pub enum ThermalState {
    /// Temperature is normal.
    Normal,
    /// The system is overheating.
    Overheating,
}

/// Actions the thermal controller sends to the system controller.
#[derive(Clone, Copy, PartialEq, Eq, Structural, Debug)]
pub enum ThermalUpdateAction {
    /// The first valid (or failed) reading: the thermal boot trap may be cleared.
    ClearBootTrap,
    /// The critical temperature was exceeded.
    AlertTriggered,
}

/// Actions that battery updates request from the system controller.
#[derive(Clone, Copy, PartialEq, Eq, Structural, Debug)]
pub enum BatteryUpdateAction {
    /// Enter power-down.
    GoToPowerDown,
    /// Clear the battery boot trap.
    ClearBootTrap,
    /// Report the state of charge on the LED.
    ReportSoC,
}

/// Boot-trap bit of the battery feature.
pub const BOOT_TRAP_BATTERY: u32 = 1;

/// Boot-trap bit of the thermal feature.
pub const BOOT_TRAP_THERMAL: u32 = 2;

/// Reasons that can hold the system in power-down at boot.
#[derive(Clone, Copy, PartialEq, Eq, Structural, Debug)]
pub enum BootTrapReason {
    /// Waiting for a first battery reading.
    Battery,
    /// Waiting for a first thermal reading.
    Thermal,
}

impl BootTrapReason {
    /// The bit of this reason in a boot-trap mask.
    pub fn bit(&self) -> (r: u32)
        ensures
            r == (match self {
                BootTrapReason::Battery => BOOT_TRAP_BATTERY,
                BootTrapReason::Thermal => BOOT_TRAP_THERMAL,
            }),
    {
        match self {
            BootTrapReason::Battery => BOOT_TRAP_BATTERY,
            BootTrapReason::Thermal => BOOT_TRAP_THERMAL,
        }
    }
}

} // verus!
