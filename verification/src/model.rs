//! Platform-independent data model shared by every controller: system states,
//! sensor readings, telemetry payloads and calibration records.

use vstd::prelude::*;

verus! {

/// Global power state of the system.
#[derive(Clone, Copy, PartialEq, Eq, Structural, Debug)]
pub enum SystemStatus {
    /// Deep power-down: only battery and thermal supervision run.
    PowerDown,
    /// Light sleep: the LED may still indicate state.
    Sleep,
    /// Fully active.
    Active,
}

/// Patterns that the status LED can play.
#[derive(Clone, Copy, PartialEq, Eq, Structural, Debug)]
pub enum SystemLedState {
    /// LED off.
    Off,
    /// Solid green.
    SolidGreen,
    /// Solid blue.
    SolidBlue,
    /// Solid yellow.
    SolidYellow,
    /// Solid orange.
    SolidOrange,
    /// Blink red four times, then turn off.
    BlinksRedFourTimes,
    /// Blink red once every thirty seconds.
    BlinksRedOncePerThirtySeconds,
}

/// Physical direction of a proximity sensor.
#[derive(Clone, Copy, PartialEq, Eq, Structural, Debug)]
pub enum Direction {
    /// North sensor.
    North,
    /// East sensor.
    East,
    /// West sensor.
    West,
}

/// Index of a direction into per-sensor arrays (North = 0, East = 1, West = 2).
pub open spec fn direction_index(d: Direction) -> int {
    match d {
        Direction::North => 0,
        Direction::East => 1,
        Direction::West => 2,
    }
}

impl Direction {
    /// Index of this direction into per-sensor arrays.
    pub fn index(&self) -> (r: usize)
        ensures
            r == direction_index(*self),
            r < 3,
    {
        match self {
            Direction::North => 0,
            Direction::East => 1,
            Direction::West => 2,
        }
    }
}

/// A reading of a time-of-flight proximity sensor.
#[derive(Clone, Copy, PartialEq, Eq, Structural, Debug)]
pub enum SensorReading {
    /// A valid distance in millimeters.
    Proximity(u16),
    /// The sensor returned no valid target.
    Invalid,
}

/// Proximity events and high-level gestures.
#[derive(Clone, Copy, PartialEq, Eq, Structural, Debug)]
pub enum Gesture {
    /// Raw distances (north, east, west) in millimeters.
    Proximity(u16, u16, u16),
    /// Both side sensors held for a long time.
    DualLongPress,
    /// Some object is near a sensor.
    ProximityDetected,
    /// No object is near any sensor.
    ProximityNotDetected,
}

/// Periodic update setting of a controller.
#[derive(Clone, Copy, PartialEq, Eq, Structural, Debug)]
pub enum PeriodicInterval {
    /// No periodic updates.
    Disabled,
    /// Update every given number of milliseconds.
    UpdateMs(u32),
}

/// Errors reported by peripheral drivers and controller clients.
#[derive(Clone, Copy, PartialEq, Eq, Structural, Debug)]
pub enum PeripheralError {
    /// The operation is not implemented by the device.
    NotImplemented,
    /// A parameter or configuration value is invalid.
    InvalidConfiguration,
    /// The device is busy, missing or its channel is full.
    DeviceNotAvailable,
    /// Any other failure.
    Unknown,
}

/// State reported by the battery charger.
#[derive(Clone, Copy, PartialEq, Eq, Structural, Debug)]
pub enum ChargeState {
    /// The battery is charging.
    Charging,
    /// Charge done, standby, or charger unplugged.
    DoneOrStandbyOrUnplugged,
    /// The charger reports a fault.
    Fault,
}

/// Cause of the last boot.
#[derive(Clone, Copy, PartialEq, Eq, Structural, Debug)]
pub enum BootReason {
    /// Power-on reset.
    PowerOn,
    /// Watchdog reset.
    Watchdog,
    /// Software-requested reset.
    SoftwareReset,
    /// Unknown cause.
    Unknown,
}

/// Devices that can be power-managed by the system.
#[derive(Clone, Copy, PartialEq, Eq, Structural, Debug)]
pub enum Device {
    /// The motor.
    Motor,
    /// Proximity sensors.
    Sensors,
    /// Status LED.
    Led,
    /// Battery / fuel gauge.
    Battery,
    /// Thermal monitoring.
    Thermal,
}

/// A signed motor speed percentage in `-100..=100`.
#[derive(Clone, Copy, PartialEq, Eq, Structural, Debug)]
pub struct MotorSpeed {
    value: i8,
}

/// The speed whose percentage is `v` (meaningful for `-100 <= v <= 100`).
pub open spec fn speed_from(v: int) -> MotorSpeed {
    choose|s: MotorSpeed| s@ == v
}

impl View for MotorSpeed {
    type V = int;

    closed spec fn view(&self) -> int {
        self.value as int
    }
}

impl MotorSpeed {
    #[verifier::type_invariant]
    spec fn in_range(self) -> bool {
        -100 <= self.value <= 100
    }

    /// Creates a speed, or `None` when `value` lies outside `-100..=100`.
    pub fn new(value: i8) -> (r: Option<MotorSpeed>)
        ensures
            r is Some <==> -100 <= value <= 100,
            r matches Some(s) ==> s@ == value as int,
    {
        if -100 <= value && value <= 100 {
            Some(MotorSpeed { value })
        } else {
            None
        }
    }

    /// Creates a speed, clamping `value` into `-100..=100`.
    pub fn new_saturating(value: i8) -> (r: MotorSpeed)
        ensures
            r@ == (if value < -100 {
                -100
            } else if value > 100 {
                100
            } else {
                value as int
            }),
    {
        if value < -100 {
            MotorSpeed { value: -100 }
        } else if value > 100 {
            MotorSpeed { value: 100 }
        } else {
            MotorSpeed { value }
        }
    }

    /// The speed percentage.
    pub fn get(&self) -> (r: i8)
        ensures
            r as int == self@,
            -100 <= r <= 100,
    {
        proof {
            use_type_invariant(self);
        }
        self.value
    }

    /// The stopped speed.
    pub fn zero() -> (r: MotorSpeed)
        ensures
            r@ == 0,
    {
        MotorSpeed { value: 0 }
    }

    /// Two speeds with the same percentage are the same speed.
    pub proof fn lemma_view_injective(a: MotorSpeed, b: MotorSpeed)
        requires
            a@ == b@,
        ensures
            a == b,
    {
    }

    /// `speed_from` gives back the speed of a percentage that some speed has.
    pub proof fn lemma_speed_from(a: MotorSpeed)
        ensures
            speed_from(a@) == a,
    {
        let b = speed_from(a@);
        assert(b@ == a@);
    }

    /// Full forward speed.
    pub fn max() -> (r: MotorSpeed)
        ensures
            r@ == 100,
    {
        MotorSpeed { value: 100 }
    }
}

/// Battery health as reported in telemetry.
#[derive(Clone, Copy, PartialEq, Eq, Structural, Debug)]
pub enum BatteryState {
    /// Voltage normal.
    Normal,
    /// Voltage low.
    Low,
    /// The fuel gauge could not be read.
    Critical,
}

/// Battery telemetry payload.
#[derive(Clone, Copy, PartialEq, Eq, Structural, Debug)]
pub enum BatteryStatus {
    /// Voltage (mV), temperature (milli-Celsius), state and active wake-lock mask.
    VolTempState(u32, i32, BatteryState, u32),
}

/// Fuel gauge telemetry payload.
#[derive(Clone, Copy, PartialEq, Eq, Structural, Debug)]
pub enum FuelGaugeTelemetry {
    /// Voltage (mV) and state of charge (%).
    VolSoc(u32, u8),
}

/// Thermal telemetry payload.
#[derive(Clone, Copy, PartialEq, Eq, Structural, Debug)]
pub enum ThermalStatus {
    /// Temperature (milli-Celsius) and whether the system is overheating.
    TempOverheating(i32, bool),
}

/// Motor telemetry payload.
#[derive(Clone, Copy, PartialEq, Eq, Structural, Debug)]
pub enum MotorStatus {
    /// Running towards the given target speed.
    Running(MotorSpeed),
    /// Stopped.
    Brake,
}

/// Proximity telemetry payload.
#[derive(Clone, Copy, PartialEq, Eq, Structural, Debug)]
pub enum ProximityTelemetry {
    /// An object is within the wake threshold at the given distance (mm).
    InRange(Direction, u16),
    /// No object within the wake threshold; last distance (mm).
    OutRange(Direction, u16),
}

/// Snapshot of one proximity sensor.
#[derive(Clone, Copy, PartialEq, Eq, Structural, Debug)]
pub enum SensorTelemetry {
    /// Direction of the sensor and its latest reading.
    Status(Direction, SensorReading),
}

/// Number of telemetry record kinds.
pub const NUM_TELEMETRY_VARIANTS: usize = 13;

/// A telemetry record as queued for persistent storage.
#[derive(Clone, Copy, PartialEq, Eq, Structural, Debug)]
pub enum TelemetryRecord {
    /// Battery status.
    Battery(BatteryStatus),
    /// Motor status.
    Motor(MotorStatus),
    /// Thermal status.
    Thermal(ThermalStatus),
    /// System power state.
    System(SystemStatus),
    /// Fuel gauge readings.
    FuelGauge(FuelGaugeTelemetry),
    /// Proximity event.
    Proximity(ProximityTelemetry),
    /// LED pattern.
    Led(SystemLedState),
    /// Gesture.
    Gesture(Gesture),
    /// Flash profiling measurement.
    FlashTelemetry(u32),
    /// Charger state.
    ChargerState(ChargeState),
    /// Peripheral error.
    PeripheralError(PeripheralError),
    /// Boot reason.
    Boot(BootReason),
    /// Periodic interval change of a device.
    PeriodicInterval(Device, PeriodicInterval),
}

/// Category index of a record (the order of the variants).
pub open spec fn record_kind(r: TelemetryRecord) -> int {
    match r {
        TelemetryRecord::Battery(_) => 0,
        TelemetryRecord::Motor(_) => 1,
        TelemetryRecord::Thermal(_) => 2,
        TelemetryRecord::System(_) => 3,
        TelemetryRecord::FuelGauge(_) => 4,
        TelemetryRecord::Proximity(_) => 5,
        TelemetryRecord::Led(_) => 6,
        TelemetryRecord::Gesture(_) => 7,
        TelemetryRecord::FlashTelemetry(_) => 8,
        TelemetryRecord::ChargerState(_) => 9,
        TelemetryRecord::PeripheralError(_) => 10,
        TelemetryRecord::Boot(_) => 11,
        TelemetryRecord::PeriodicInterval(_, _) => 12,
    }
}

/// Display name of each record category, in the order of [`record_kind`].
pub open spec fn kind_name(idx: int) -> Seq<char> {
    if idx == 0 {
        "Battery"@
    } else if idx == 1 {
        "Motor"@
    } else if idx == 2 {
        "Thermal"@
    } else if idx == 3 {
        "System"@
    } else if idx == 4 {
        "FuelGauge"@
    } else if idx == 5 {
        "Proximity"@
    } else if idx == 6 {
        "Led"@
    } else if idx == 7 {
        "Gesture"@
    } else if idx == 8 {
        "FlashTelemetry"@
    } else if idx == 9 {
        "ChargerState"@
    } else if idx == 10 {
        "PeripheralError"@
    } else if idx == 11 {
        "Boot"@
    } else if idx == 12 {
        "PeriodicInterval"@
    } else {
        "Unknown"@
    }
}

/// Every record falls in one of the counted categories, and the category is
/// displayed under the name of the record's own variant: battery records are
/// counted as `Battery`, proximity records as `Proximity`, and so on; records of
/// different variants are never counted together.
pub proof fn lemma_record_categories(r: TelemetryRecord, s: TelemetryRecord)
    ensures
        0 <= record_kind(r) < NUM_TELEMETRY_VARIANTS,
        kind_name(record_kind(r)) == match r {
            TelemetryRecord::Battery(_) => "Battery"@,
            TelemetryRecord::Motor(_) => "Motor"@,
            TelemetryRecord::Thermal(_) => "Thermal"@,
            TelemetryRecord::System(_) => "System"@,
            TelemetryRecord::FuelGauge(_) => "FuelGauge"@,
            TelemetryRecord::Proximity(_) => "Proximity"@,
            TelemetryRecord::Led(_) => "Led"@,
            TelemetryRecord::Gesture(_) => "Gesture"@,
            TelemetryRecord::FlashTelemetry(_) => "FlashTelemetry"@,
            TelemetryRecord::ChargerState(_) => "ChargerState"@,
            TelemetryRecord::PeripheralError(_) => "PeripheralError"@,
            TelemetryRecord::Boot(_) => "Boot"@,
            TelemetryRecord::PeriodicInterval(_, _) => "PeriodicInterval"@,
        },
        (r is Battery) ==> record_kind(r) == 0,
        (r is Proximity) ==> record_kind(r) == 5,
        (r is PeriodicInterval) ==> record_kind(r) == 12,
        (r is Battery) != (s is Battery) ==> record_kind(r) != record_kind(s),
        (r is Proximity) != (s is Proximity) ==> record_kind(r) != record_kind(s),
        (r is Thermal) != (s is Thermal) ==> record_kind(r) != record_kind(s),
        (r is Motor) != (s is Motor) ==> record_kind(r) != record_kind(s),
{
}

impl TelemetryRecord {
    /// Category index of this record.
    pub fn kind_index(&self) -> (r: usize)
        ensures
            r == record_kind(*self),
            r < NUM_TELEMETRY_VARIANTS,
    {
        match self {
            TelemetryRecord::Battery(_) => 0,
            TelemetryRecord::Motor(_) => 1,
            TelemetryRecord::Thermal(_) => 2,
            TelemetryRecord::System(_) => 3,
            TelemetryRecord::FuelGauge(_) => 4,
            TelemetryRecord::Proximity(_) => 5,
            TelemetryRecord::Led(_) => 6,
            TelemetryRecord::Gesture(_) => 7,
            TelemetryRecord::FlashTelemetry(_) => 8,
            TelemetryRecord::ChargerState(_) => 9,
            TelemetryRecord::PeripheralError(_) => 10,
            TelemetryRecord::Boot(_) => 11,
            TelemetryRecord::PeriodicInterval(_, _) => 12,
        }
    }

    /// Display name of the record category with index `idx`.
    pub fn name_from_index(idx: usize) -> (r: &'static str)
        ensures
            r@ == kind_name(idx as int),
    {
        proof {
            reveal_strlit("Battery");
            reveal_strlit("Motor");
            reveal_strlit("Thermal");
            reveal_strlit("System");
            reveal_strlit("FuelGauge");
            reveal_strlit("Proximity");
            reveal_strlit("Led");
            reveal_strlit("Gesture");
            reveal_strlit("FlashTelemetry");
            reveal_strlit("ChargerState");
            reveal_strlit("PeripheralError");
            reveal_strlit("Boot");
            reveal_strlit("PeriodicInterval");
            reveal_strlit("Unknown");
        }
        if idx == 0 {
            "Battery"
        } else if idx == 1 {
            "Motor"
        } else if idx == 2 {
            "Thermal"
        } else if idx == 3 {
            "System"
        } else if idx == 4 {
            "FuelGauge"
        } else if idx == 5 {
            "Proximity"
        } else if idx == 6 {
            "Led"
        } else if idx == 7 {
            "Gesture"
        } else if idx == 8 {
            "FlashTelemetry"
        } else if idx == 9 {
            "ChargerState"
        } else if idx == 10 {
            "PeripheralError"
        } else if idx == 11 {
            "Boot"
        } else if idx == 12 {
            "PeriodicInterval"
        } else {
            "Unknown"
        }
    }
}

} // verus!
