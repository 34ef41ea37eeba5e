//! Time-of-flight proximity sensors: the per-sensor controller, the decisions of
//! its run loop, the `sensor` command line, calibration arithmetic and the
//! proximity part of the system's reactions.

use crate::model::{
    Device, Direction, Gesture, PeriodicInterval, PeripheralError, SensorReading, SensorTelemetry,
    SystemStatus,
};
use crate::filesystem_controller::{ScratchBuffer, ScratchBufferView, lock_refusal};
use crate::motor_controller::opt_chars;
use crate::parse::{parse_u16, parse_usize, spec_parse_unsigned, str_eq};
use crate::telemetry_controller::{ProximityClientView, ProximityTelemetryClient, TelemetryClient};
use crate::types::{GestureAction, ProximityAction, SensorDirection, SensorMetadata, spec_direction_of};
use vstd::prelude::*;

verus! {

/// Largest raw distance (mm, exclusive) accepted as a calibration sample.
pub const MAX_CALIBRATION_RAW_MM: u16 = 900;

/// Interval (ms) of periodic reads switched on by [`SensorStateManager::set_periodic_enabled`].
pub const DEFAULT_PERIODIC_MS: u32 = 1000;

/// Number of reads tried when taking a calibration sample.
pub const CAL_READ_ATTEMPTS: usize = 10;

/// Calibration distance (mm) of the crosstalk calibration when none is given.
pub const DEFAULT_XTALK_DISTANCE_MM: u16 = 100;

/// Distance (mm) assumed for a sensor before its first reading.
pub const UNSEEN_DISTANCE_MM: u16 = 1000;

/// Period (ms) of proximity reads while the system is active.
pub const ACTIVE_PROXIMITY_MS: u32 = 200;

/// Period (ms) of proximity reads in sleep and power-down.
pub const IDLE_PROXIMITY_MS: u32 = 1000;

/// A time-of-flight distance sensor.
/// Its implementations promise that what a read returns follows from the
/// sensor's state before the read; this contract is not proved here.
pub trait ProximitySensor {
    /// What reading the distance returns.
    spec fn distance_result(&self) -> Result<SensorReading, PeripheralError>;

    /// Reads the distance.
    fn read_distance_mm(&mut self) -> (r: Result<SensorReading, PeripheralError>)
        ensures
            r == old(self).distance_result(),
    ;

    /// What reading the uncompensated distance and the peak return rate returns.
    spec fn raw_result(&self) -> Result<(SensorReading, u16), PeripheralError>;

    /// Reads the uncompensated distance and the peak return rate.
    fn read_raw_distance_and_rate(&mut self) -> (r: Result<(SensorReading, u16), PeripheralError>)
        ensures
            r == old(self).raw_result(),
    ;
}

/// A sensor that corrects its readings with a stored calibration.
/// Its implementations promise that the result follows from the sensor's
/// state and the reading; this contract is not proved here.
pub trait ApplyCalibration {
    /// What calibrating `reading` gives.
    spec fn calibrated(&self, reading: SensorReading) -> Result<SensorReading, &'static str>;

    /// The calibrated form of `reading`.
    fn apply_calibration(&self, reading: SensorReading) -> (r: Result<SensorReading, &'static str>)
        ensures
            r == self.calibrated(reading),
    ;
}

/// Commands sent to a sensor controller.
#[derive(Clone, Copy, PartialEq, Eq, Structural, Debug)]
pub enum SensorCommand {
    /// Read the sensor now, as a periodic read does.
    ReadSensors,
    /// Read the sensor and hand the calibrated reading back.
    ReadSensorsWithSignal,
    /// Read the sensor and hand the raw reading back.
    ReadRawSensorsWithSignal,
    /// Read the raw distance and return rate and hand them back.
    ReadXTalkRawWithSignal,
    /// Set the periodic read interval.
    SetInterval(PeriodicInterval),
}

/// What a handled command hands back to its sender.
#[derive(Clone, Copy, PartialEq, Eq, Debug)]
pub enum SensorResponse {
    /// Nothing to hand back.
    Done,
    /// A periodic-style read ran; an accepted reading goes upstream.
    Updated(Result<SensorReading, PeripheralError>),
    /// The reading asked for.
    Reading(Result<SensorReading, PeripheralError>),
    /// The raw reading and return rate asked for.
    XTalk(Result<(SensorReading, u16), PeripheralError>),
}

/// Parameters of a proximity read.
#[derive(Clone, Copy, PartialEq, Eq, Structural, Debug)]
pub struct ProximityReaderContext {
    /// Distance (mm) under which a target counts as present.
    pub wake_threshold_mm: u16,
}

/// Reads one value from a sensor of type `S`.
pub trait SensorReader<S> {
    /// Parameters of a read.
    type Context;

    /// The value read.
    type Data;

    /// Reads `sensor`.
    fn read_data(sensor: &mut S, ctx: &Self::Context) -> Result<Self::Data, PeripheralError>;
}

/// Reads the distance of a proximity sensor.
pub struct ProximityReader;

impl<S: ProximitySensor> SensorReader<S> for ProximityReader {
    type Context = ProximityReaderContext;

    type Data = SensorReading;

    fn read_data(sensor: &mut S, ctx: &ProximityReaderContext) -> (r: Result<SensorReading, PeripheralError>)
        ensures
            r == old(sensor).distance_result(),
    {
        sensor.read_distance_mm()
    }
}

/// The distance in millimetres of a reading; an invalid reading counts as
/// infinitely far (`u16::MAX`).
pub open spec fn reading_mm(r: SensorReading) -> u16 {
    match r {
        SensorReading::Proximity(d) => d,
        SensorReading::Invalid => u16::MAX,
    }
}

/// The distance in millimetres of a reading; an invalid reading counts as
/// infinitely far.
pub fn distance_of(r: SensorReading) -> (d: u16)
    ensures
        d == reading_mm(r),
{
    match r {
        SensorReading::Proximity(d) => d,
        SensorReading::Invalid => u16::MAX,
    }
}

/// The corrected reading: the calibrated one when calibration succeeds, else
/// the raw one.
pub open spec fn corrected(raw: SensorReading, calibrated: Result<SensorReading, &'static str>) -> SensorReading {
    match calibrated {
        Ok(c) => c,
        Err(_) => raw,
    }
}

/// What a corrected read returns: the sensor's reading, calibrated by the
/// sensor as it is after the read when calibration succeeds, raw otherwise; or
/// the read's failure.
pub open spec fn read_outcome<S: ProximitySensor + ApplyCalibration>(before: S, after: S) -> Result<SensorReading, PeripheralError> {
    match before.distance_result() {
        Ok(raw) => Ok(corrected(raw, after.calibrated(raw))),
        Err(e) => Err(e),
    }
}

/// A read's result as a signalled read hands it back: any failure becomes
/// `DeviceNotAvailable`.
pub open spec fn signalled<T>(r: Result<T, PeripheralError>) -> Result<T, PeripheralError> {
    match r {
        Ok(v) => Ok(v),
        Err(_) => Err(PeripheralError::DeviceNotAvailable),
    }
}

/// The abstract state of a [`SensorStateManager`].
pub struct SensorStateView {
    /// Sensor metadata.
    pub metadata: SensorMetadata,
    /// Periodic read interval.
    pub periodic_interval: PeriodicInterval,
    /// Whether accepted readings go upstream to the system controller.
    pub has_upstream: bool,
    /// Whether a data-ready interrupt pin wakes the run loop.
    pub has_interrupt_pin: bool,
}

/// Coordinates access to a sensor: metadata, periodic interval and upstream
/// notifications.
pub struct SensorStateManager<S> {
    metadata: SensorMetadata,
    sensor: S,
    periodic_interval: PeriodicInterval,
    has_upstream: bool,
    has_interrupt_pin: bool,
}

impl<S> View for SensorStateManager<S> {
    type V = SensorStateView;

    closed spec fn view(&self) -> SensorStateView {
        SensorStateView {
            metadata: self.metadata,
            periodic_interval: self.periodic_interval,
            has_upstream: self.has_upstream,
            has_interrupt_pin: self.has_interrupt_pin,
        }
    }
}

impl<S> SensorStateManager<S> {
    /// A manager with periodic reads off.
    pub fn new(metadata: SensorMetadata, sensor: S, has_upstream: bool, has_interrupt_pin: bool) -> (r: Self)
        ensures
            r@ == (SensorStateView {
                metadata,
                periodic_interval: PeriodicInterval::Disabled,
                has_upstream,
                has_interrupt_pin,
            }),
            r.sensor_state() == sensor,
    {
        SensorStateManager {
            metadata,
            sensor,
            periodic_interval: PeriodicInterval::Disabled,
            has_upstream,
            has_interrupt_pin,
        }
    }

    /// The sensor metadata.
    pub fn metadata(&self) -> (r: SensorMetadata)
        ensures
            r == self@.metadata,
    {
        self.metadata
    }

    /// The sensor direction.
    pub fn direction(&self) -> (r: Direction)
        ensures
            r == self@.metadata.direction,
    {
        self.metadata.direction
    }

    /// The sensor.
    pub fn sensor(&self) -> (r: &S)
        ensures
            *r == self.sensor_state(),
    {
        &self.sensor
    }

    /// The sensor, for changes.
    pub fn sensor_mut(&mut self) -> (r: &mut S)
        ensures
            final(self)@ == old(self)@,
            *r == old(self).sensor_state(),
            final(self).sensor_state() == *final(r),
    {
        &mut self.sensor
    }

    /// The sensor.
    pub closed spec fn sensor_state(&self) -> S {
        self.sensor
    }

    /// Whether periodic reads are on.
    pub fn is_periodic_enabled(&self) -> (r: bool)
        ensures
            r == (self@.periodic_interval != PeriodicInterval::Disabled),
    {
        match self.periodic_interval {
            PeriodicInterval::Disabled => false,
            PeriodicInterval::UpdateMs(_) => true,
        }
    }

    /// The periodic read interval.
    pub fn periodic_interval(&self) -> (r: PeriodicInterval)
        ensures
            r == self@.periodic_interval,
    {
        self.periodic_interval
    }

    /// Switches periodic reads on (every second) or off.
    pub fn set_periodic_enabled(&mut self, enabled: bool)
        ensures
            final(self)@ == (SensorStateView {
                periodic_interval: if enabled {
                    PeriodicInterval::UpdateMs(DEFAULT_PERIODIC_MS)
                } else {
                    PeriodicInterval::Disabled
                },
                ..old(self)@
            }),
    {
        self.periodic_interval = if enabled {
            PeriodicInterval::UpdateMs(DEFAULT_PERIODIC_MS)
        } else {
            PeriodicInterval::Disabled
        };
    }

    /// Sets the periodic read interval.
    pub fn set_periodic_interval(&mut self, interval: PeriodicInterval)
        ensures
            final(self)@ == (SensorStateView { periodic_interval: interval, ..old(self)@ }),
            final(self).sensor_state() == old(self).sensor_state(),
    {
        self.periodic_interval = interval;
    }

    /// The upstream message for a reading, when readings go upstream.
    pub fn notify_upstream(&self, data: SensorReading) -> (r: Option<(SensorMetadata, SensorReading)>)
        ensures
            r == (if self@.has_upstream {
                Some((self@.metadata, data))
            } else {
                None
            }),
    {
        if self.has_upstream {
            Some((self.metadata, data))
        } else {
            None
        }
    }
}

/// The abstract state of a [`SensorController`].
pub struct SensorControllerView {
    /// The state manager's state.
    pub manager: SensorStateView,
    /// Latest corrected reading.
    pub latest: SensorReading,
    /// Distance (mm) of the latest corrected reading; 1000 before the first.
    pub latest_mm: u16,
    /// Read parameters.
    pub context: ProximityReaderContext,
    /// Whether a command channel is bound.
    pub has_command_tx: bool,
}

/// The state after an accepted reading.
pub open spec fn accepted(v: SensorControllerView, d: SensorReading) -> SensorControllerView {
    SensorControllerView { latest: d, latest_mm: reading_mm(d), ..v }
}

/// Coordinates the readings of one proximity sensor.
pub struct SensorController<S> {
    state_manager: SensorStateManager<S>,
    latest_data: SensorReading,
    latest_mm: u16,
    context: ProximityReaderContext,
    has_command_tx: bool,
}

impl<S> View for SensorController<S> {
    type V = SensorControllerView;

    closed spec fn view(&self) -> SensorControllerView {
        SensorControllerView {
            manager: self.state_manager@,
            latest: self.latest_data,
            latest_mm: self.latest_mm,
            context: self.context,
            has_command_tx: self.has_command_tx,
        }
    }
}

/// A controller before its first reading.
pub open spec fn initial_sensor(metadata: SensorMetadata, wake_threshold_mm: u16, has_upstream: bool, has_interrupt_pin: bool) -> SensorControllerView {
    SensorControllerView {
        manager: SensorStateView {
            metadata,
            periodic_interval: PeriodicInterval::Disabled,
            has_upstream,
            has_interrupt_pin,
        },
        latest: SensorReading::Invalid,
        latest_mm: UNSEEN_DISTANCE_MM,
        context: ProximityReaderContext { wake_threshold_mm },
        has_command_tx: false,
    }
}

impl<S: ProximitySensor + ApplyCalibration> SensorController<S> {
    /// A controller whose readings stay local.
    pub fn new(metadata: SensorMetadata, sensor: S, wake_threshold_mm: u16) -> (r: Self)
        ensures
            r@ == initial_sensor(metadata, wake_threshold_mm, false, false),
            r.sensor_state() == sensor,
    {
        SensorController {
            state_manager: SensorStateManager::new(metadata, sensor, false, false),
            latest_data: SensorReading::Invalid,
            latest_mm: UNSEEN_DISTANCE_MM,
            context: ProximityReaderContext { wake_threshold_mm },
            has_command_tx: false,
        }
    }

    /// A controller whose accepted readings go upstream.
    pub fn new_with_fusion(metadata: SensorMetadata, sensor: S, wake_threshold_mm: u16) -> (r: Self)
        ensures
            r@ == initial_sensor(metadata, wake_threshold_mm, true, false),
            r.sensor_state() == sensor,
    {
        SensorController {
            state_manager: SensorStateManager::new(metadata, sensor, true, false),
            latest_data: SensorReading::Invalid,
            latest_mm: UNSEEN_DISTANCE_MM,
            context: ProximityReaderContext { wake_threshold_mm },
            has_command_tx: false,
        }
    }

    /// A controller whose accepted readings go upstream and whose run loop also
    /// wakes on the sensor's data-ready pin.
    pub fn new_with_fusion_and_interrupt(metadata: SensorMetadata, sensor: S, wake_threshold_mm: u16) -> (r: Self)
        ensures
            r@ == initial_sensor(metadata, wake_threshold_mm, true, true),
            r.sensor_state() == sensor,
    {
        SensorController {
            state_manager: SensorStateManager::new(metadata, sensor, true, true),
            latest_data: SensorReading::Invalid,
            latest_mm: UNSEEN_DISTANCE_MM,
            context: ProximityReaderContext { wake_threshold_mm },
            has_command_tx: false,
        }
    }

    /// Records that a command channel is bound.
    pub fn bind_command_tx(&mut self)
        ensures
            final(self)@ == (SensorControllerView { has_command_tx: true, ..old(self)@ }),
    {
        self.has_command_tx = true;
    }

    /// The state manager.
    pub fn state_manager(&self) -> (r: &SensorStateManager<S>)
        ensures
            r@ == self@.manager,
    {
        &self.state_manager
    }

    /// The sensor, for changes.
    pub fn sensor_mut(&mut self) -> (r: &mut S)
        ensures
            final(self)@ == old(self)@,
            *r == old(self).sensor_state(),
            final(self).sensor_state() == *final(r),
    {
        self.state_manager.sensor_mut()
    }

    /// The sensor.
    pub closed spec fn sensor_state(&self) -> S {
        self.state_manager.sensor_state()
    }

    /// Distance (mm) of the latest reading: 1000 before the first, `u16::MAX`
    /// after an invalid one.
    pub fn latest_data(&self) -> (r: u16)
        ensures
            r == self@.latest_mm,
    {
        self.latest_mm
    }

    /// The latest corrected reading.
    pub fn latest_distance(&self) -> (r: SensorReading)
        ensures
            r == self@.latest,
    {
        self.latest_data
    }

    /// The sensor's telemetry: its direction and latest reading.
    pub fn telemetry(&self) -> (r: SensorTelemetry)
        ensures
            r == SensorTelemetry::Status(self@.manager.metadata.direction, self@.latest),
    {
        SensorTelemetry::Status(self.state_manager.direction(), self.latest_data)
    }

    /// The sensor direction.
    pub fn direction(&self) -> (r: Direction)
        ensures
            r == self@.manager.metadata.direction,
    {
        self.state_manager.direction()
    }

    /// The sensor metadata.
    pub fn metadata(&self) -> (r: SensorMetadata)
        ensures
            r == self@.manager.metadata,
    {
        self.state_manager.metadata()
    }

    /// Whether periodic reads are on.
    pub fn is_periodic_enabled(&self) -> (r: bool)
        ensures
            r == (self@.manager.periodic_interval != PeriodicInterval::Disabled),
    {
        self.state_manager.is_periodic_enabled()
    }

    /// The calibrated form of `reading`, as the sensor gives it.
    pub fn apply_calibration(&self, reading: SensorReading) -> (r: Result<SensorReading, &'static str>)
        ensures
            r == self.sensor_state().calibrated(reading),
    {
        self.state_manager.sensor().apply_calibration(reading)
    }

    /// Reads the sensor and corrects the reading: the calibrated reading when
    /// calibration succeeds, else the raw one.
    fn read_corrected(&mut self) -> (r: Result<SensorReading, PeripheralError>)
        ensures
            final(self)@ == old(self)@,
            r == read_outcome(old(self).sensor_state(), final(self).sensor_state()),
    {
        let raw = ProximityReader::read_data(self.state_manager.sensor_mut(), &self.context)?;
        let cal = self.state_manager.sensor().apply_calibration(raw);
        Ok(
            match cal {
                Ok(c) => c,
                Err(_) => raw,
            },
        )
    }

    /// Reads the sensor, corrects the reading and keeps it as the latest. A
    /// failed read changes nothing and is returned. The caller sends an
    /// accepted reading upstream ([`SensorStateManager::notify_upstream`]).
    pub fn update(&mut self) -> (r: Result<SensorReading, PeripheralError>)
        ensures
            r == read_outcome(old(self).sensor_state(), final(self).sensor_state()),
            match r {
                Ok(d) => final(self)@ == accepted(old(self)@, d),
                Err(_) => final(self)@ == old(self)@,
            },
    {
        let d = self.read_corrected()?;
        self.latest_data = d;
        self.latest_mm = distance_of(d);
        Ok(d)
    }

    /// Handles a command. `ReadSensors` updates as a periodic read does;
    /// `ReadSensorsWithSignal` keeps the corrected reading as the latest and
    /// hands it back; the raw reads hand the sensor's raw results back and change
    /// nothing else. Failed reads of the three signalled reads come back as
    /// `DeviceNotAvailable`. `SetInterval` reads no sensor.
    pub fn handle_command(&mut self, cmd: SensorCommand) -> (r: SensorResponse)
        ensures
            match cmd {
                SensorCommand::ReadSensors => {
                    &&& r == SensorResponse::Updated(
                        read_outcome(old(self).sensor_state(), final(self).sensor_state()),
                    )
                    &&& match r {
                        SensorResponse::Updated(Ok(d)) => final(self)@ == accepted(old(self)@, d),
                        _ => final(self)@ == old(self)@,
                    }
                },
                SensorCommand::ReadSensorsWithSignal => {
                    &&& r == SensorResponse::Reading(
                        signalled(read_outcome(old(self).sensor_state(), final(self).sensor_state())),
                    )
                    &&& match r {
                        SensorResponse::Reading(Ok(d)) => final(self)@ == accepted(old(self)@, d),
                        _ => final(self)@ == old(self)@,
                    }
                },
                SensorCommand::ReadRawSensorsWithSignal => {
                    &&& final(self)@ == old(self)@
                    &&& r == SensorResponse::Reading(signalled(old(self).sensor_state().distance_result()))
                },
                SensorCommand::ReadXTalkRawWithSignal => {
                    &&& final(self)@ == old(self)@
                    &&& r == SensorResponse::XTalk(signalled(old(self).sensor_state().raw_result()))
                },
                SensorCommand::SetInterval(interval) => {
                    &&& r == SensorResponse::Done
                    &&& final(self).sensor_state() == old(self).sensor_state()
                    &&& final(self)@ == (SensorControllerView {
                        manager: SensorStateView { periodic_interval: interval, ..old(self)@.manager },
                        ..old(self)@
                    })
                },
            },
    {
        match cmd {
            SensorCommand::ReadSensors => SensorResponse::Updated(self.update()),
            SensorCommand::ReadSensorsWithSignal => {
                match self.read_corrected() {
                    Ok(d) => {
                        self.latest_data = d;
                        self.latest_mm = distance_of(d);
                        SensorResponse::Reading(Ok(d))
                    },
                    Err(_) => SensorResponse::Reading(Err(PeripheralError::DeviceNotAvailable)),
                }
            },
            SensorCommand::ReadRawSensorsWithSignal => {
                match self.state_manager.sensor_mut().read_distance_mm() {
                    Ok(d) => SensorResponse::Reading(Ok(d)),
                    Err(_) => SensorResponse::Reading(Err(PeripheralError::DeviceNotAvailable)),
                }
            },
            SensorCommand::ReadXTalkRawWithSignal => {
                match self.state_manager.sensor_mut().read_raw_distance_and_rate() {
                    Ok(x) => SensorResponse::XTalk(Ok(x)),
                    Err(_) => SensorResponse::XTalk(Err(PeripheralError::DeviceNotAvailable)),
                }
            },
            SensorCommand::SetInterval(interval) => {
                self.state_manager.set_periodic_interval(interval);
                SensorResponse::Done
            },
        }
    }
}


/// What the run loop of a sensor waits for next.
#[derive(Clone, Copy, PartialEq, Eq, Structural, Debug)]
pub enum SensorWait {
    /// A command, or the given time (ms) after the last read, whichever comes
    /// first; the data-ready pin is ignored so that reads stay throttled.
    CommandOrTimeout(u32),
    /// A command, the data-ready pin when there is one, or a long safety
    /// timeout.
    CommandOrDataReady {
        /// Whether a data-ready pin is wired.
        pin: bool,
    },
}

/// What ended a wait of the sensor run loop.
#[derive(Clone, Copy, PartialEq, Eq, Structural, Debug)]
pub enum SensorEvent {
    /// A command arrived.
    Command(SensorCommand),
    /// The periodic or safety timeout ran out.
    Timeout,
    /// The data-ready pin fired.
    DataReady,
}

impl<S: ProximitySensor + ApplyCalibration> SensorController<S> {
    /// What the run loop waits for: with periodic reads on, a command or the
    /// next read time; otherwise a command or the data-ready pin.
    pub fn next_wait(&self) -> (r: SensorWait)
        ensures
            r == (match self@.manager.periodic_interval {
                PeriodicInterval::UpdateMs(ms) => SensorWait::CommandOrTimeout(ms),
                PeriodicInterval::Disabled => SensorWait::CommandOrDataReady {
                    pin: self@.manager.has_interrupt_pin,
                },
            }),
    {
        match self.state_manager.periodic_interval() {
            PeriodicInterval::UpdateMs(ms) => SensorWait::CommandOrTimeout(ms),
            PeriodicInterval::Disabled => SensorWait::CommandOrDataReady {
                pin: self.state_manager.has_interrupt_pin,
            },
        }
    }

    /// Handles what ended a wait: a command is handled; a timeout or the
    /// data-ready pin triggers a read, as `ReadSensors` does. The caller
    /// restarts its read timer after a timeout or data-ready event.
    pub fn on_event(&mut self, event: SensorEvent) -> (r: SensorResponse)
        ensures
            match event {
                SensorEvent::Command(cmd) => match cmd {
                    SensorCommand::ReadSensors => {
                        &&& r == SensorResponse::Updated(
                            read_outcome(old(self).sensor_state(), final(self).sensor_state()),
                        )
                        &&& match r {
                            SensorResponse::Updated(Ok(d)) => final(self)@ == accepted(old(self)@, d),
                            _ => final(self)@ == old(self)@,
                        }
                    },
                    SensorCommand::ReadSensorsWithSignal => {
                        &&& r == SensorResponse::Reading(
                            signalled(read_outcome(old(self).sensor_state(), final(self).sensor_state())),
                        )
                        &&& match r {
                            SensorResponse::Reading(Ok(d)) => final(self)@ == accepted(old(self)@, d),
                            _ => final(self)@ == old(self)@,
                        }
                    },
                    SensorCommand::ReadRawSensorsWithSignal => {
                        &&& final(self)@ == old(self)@
                        &&& r == SensorResponse::Reading(signalled(old(self).sensor_state().distance_result()))
                    },
                    SensorCommand::ReadXTalkRawWithSignal => {
                        &&& final(self)@ == old(self)@
                        &&& r == SensorResponse::XTalk(signalled(old(self).sensor_state().raw_result()))
                    },
                    SensorCommand::SetInterval(interval) => {
                        &&& r == SensorResponse::Done
                        &&& final(self).sensor_state() == old(self).sensor_state()
                        &&& final(self)@ == (SensorControllerView {
                            manager: SensorStateView { periodic_interval: interval, ..old(self)@.manager },
                            ..old(self)@
                        })
                    },
                },
                _ => {
                    &&& r == SensorResponse::Updated(
                        read_outcome(old(self).sensor_state(), final(self).sensor_state()),
                    )
                    &&& match r {
                        SensorResponse::Updated(Ok(d)) => final(self)@ == accepted(old(self)@, d),
                        _ => final(self)@ == old(self)@,
                    }
                },
            },
    {
        match event {
            SensorEvent::Command(cmd) => self.handle_command(cmd),
            _ => SensorResponse::Updated(self.update()),
        }
    }
}

/// The number of bytes of the UTF-8 encoding of a character.
pub open spec fn char_utf8_len(c: char) -> nat {
    if (c as int) < 0x80 {
        1
    } else if (c as int) < 0x800 {
        2
    } else if (c as int) < 0x10000 {
        3
    } else {
        4
    }
}

/// The number of bytes of the UTF-8 encoding of a string.
pub open spec fn utf8_len(s: Seq<char>) -> nat
    decreases s.len(),
{
    if s.len() == 0 {
        0
    } else {
        utf8_len(s.drop_last()) + char_utf8_len(s.last())
    }
}

/// A bounded string of at most 16 bytes.
#[verifier::external_type_specification]
#[verifier::external_body]
pub struct ExBoundedString<const N: usize>(heapless::String<N>);

/// The characters held by a 16-byte bounded string.
pub uninterp spec fn bounded_chars(s: heapless::String<16>) -> Seq<char>;

/// `heapless::String::<16>::try_from`: copies `s` when its UTF-8 encoding fits
/// in 16 bytes and fails otherwise.
#[verifier::external_body]
fn bounded_from(s: &str) -> (r: Result<heapless::String<16>, ()>)
    ensures
        r is Ok <==> utf8_len(s@) <= 16,
        r matches Ok(t) ==> bounded_chars(t) == s@,
{
    heapless::String::<16>::try_from(s)
}

/// `heapless::String::as_str`: the characters held.
#[verifier::external_body]
fn bounded_as_str(s: &heapless::String<16>) -> (r: &str)
    ensures
        r@ == bounded_chars(*s),
{
    s.as_str()
}

/// Subcommands of the `sensor` command line.
#[derive(Clone, Copy, PartialEq, Eq, Structural, Debug)]
pub enum SensorSubcommand {
    /// Print readings.
    Status,
    /// Calibrate the cover (near) distance.
    CalNear,
    /// Calibrate the 100 mm (far) distance.
    CalFar,
    /// Calibrate crosstalk.
    CalXTalk,
}

/// The sensor subcommand named by `s`.
pub open spec fn spec_sensor_sub(s: Seq<char>) -> Option<SensorSubcommand> {
    if s == "status"@ {
        Some(SensorSubcommand::Status)
    } else if s == "cal_near"@ {
        Some(SensorSubcommand::CalNear)
    } else if s == "cal_far"@ {
        Some(SensorSubcommand::CalFar)
    } else if s == "cal_xtalk"@ {
        Some(SensorSubcommand::CalXTalk)
    } else {
        None
    }
}

impl SensorSubcommand {
    /// Reads a sensor subcommand.
    pub fn parse(s: &str) -> (r: Result<SensorSubcommand, &'static str>)
        ensures
            match spec_sensor_sub(s@) {
                Some(c) => r == Ok::<SensorSubcommand, &'static str>(c),
                None => r matches Err(e) && e@
                    == "Invalid sensor subcommand. Expected: status, cal_near, cal_far, cal_xtalk"@,
            },
    {
        if str_eq(s, "status") {
            Ok(SensorSubcommand::Status)
        } else if str_eq(s, "cal_near") {
            Ok(SensorSubcommand::CalNear)
        } else if str_eq(s, "cal_far") {
            Ok(SensorSubcommand::CalFar)
        } else if str_eq(s, "cal_xtalk") {
            Ok(SensorSubcommand::CalXTalk)
        } else {
            Err("Invalid sensor subcommand. Expected: status, cal_near, cal_far, cal_xtalk")
        }
    }
}

/// The sensor named by a command-line word.
pub open spec fn spec_direction_arg(a: Seq<char>) -> Option<SensorDirection> {
    if a == "north"@ {
        Some(SensorDirection::North)
    } else if a == "east"@ {
        Some(SensorDirection::East)
    } else if a == "west"@ {
        Some(SensorDirection::West)
    } else {
        None
    }
}

impl SensorDirection {
    /// Reads `north`, `east` or `west`; otherwise names what was expected.
    pub fn from_arg(arg: &str) -> (r: Result<SensorDirection, &'static str>)
        ensures
            match spec_direction_arg(arg@) {
                Some(d) => r == Ok::<SensorDirection, &'static str>(d),
                None => r matches Err(e) && e@ == "one of 'north', 'east', or 'west'"@,
            },
    {
        if str_eq(arg, "north") {
            Ok(SensorDirection::North)
        } else if str_eq(arg, "east") {
            Ok(SensorDirection::East)
        } else if str_eq(arg, "west") {
            Ok(SensorDirection::West)
        } else {
            Err("one of 'north', 'east', or 'west'")
        }
    }

    /// The command-line word of the direction.
    pub fn arg_name(&self) -> (r: &'static str)
        ensures
            r@ == (match self {
                SensorDirection::North => "north"@,
                SensorDirection::East => "east"@,
                SensorDirection::West => "west"@,
            }),
    {
        match self {
            SensorDirection::North => "north",
            SensorDirection::East => "east",
            SensorDirection::West => "west",
        }
    }

    /// The display name of the direction.
    pub fn display_name(&self) -> (r: &'static str)
        ensures
            r@ == (match self {
                SensorDirection::North => "North"@,
                SensorDirection::East => "East"@,
                SensorDirection::West => "West"@,
            }),
    {
        match self {
            SensorDirection::North => "North",
            SensorDirection::East => "East",
            SensorDirection::West => "West",
        }
    }
}

/// A sensor command line ready to run: a status print with a number of rounds,
/// or one of the calibrations with its partition (crosstalk: its distance or
/// partition).
pub enum PendingCommand {
    /// Print the readings this many times.
    Status(usize),
    /// Calibrate the cover distance.
    CalNear {
        /// Sensor.
        direction: SensorDirection,
        /// Partition to store the calibration in.
        partition: heapless::String<16>,
    },
    /// Calibrate the 100 mm distance.
    CalFar {
        /// Sensor.
        direction: SensorDirection,
        /// Partition to store the calibration in.
        partition: heapless::String<16>,
    },
    /// Calibrate crosstalk.
    CalXTalk {
        /// Sensor.
        direction: SensorDirection,
        /// Calibration distance (mm) or partition.
        distance_or_partition: heapless::String<16>,
    },
}

/// The abstract form of a pending command, its text parameter as characters.
pub enum PendingShape {
    /// Print the readings this many times.
    Status(nat),
    /// Calibrate the cover distance.
    CalNear(SensorDirection, Seq<char>),
    /// Calibrate the 100 mm distance.
    CalFar(SensorDirection, Seq<char>),
    /// Calibrate crosstalk.
    CalXTalk(SensorDirection, Seq<char>),
}

/// The abstract form of a pending command.
pub open spec fn pending_shape(c: PendingCommand) -> PendingShape {
    match c {
        PendingCommand::Status(n) => PendingShape::Status(n as nat),
        PendingCommand::CalNear { direction, partition } => PendingShape::CalNear(direction, bounded_chars(partition)),
        PendingCommand::CalFar { direction, partition } => PendingShape::CalFar(direction, bounded_chars(partition)),
        PendingCommand::CalXTalk { direction, distance_or_partition } => PendingShape::CalXTalk(
            direction,
            bounded_chars(distance_or_partition),
        ),
    }
}

/// The pending command (or error message) of a sensor command line. `status`
/// takes an optional number of rounds (1 by default); the calibrations take a
/// sensor and an optional partition of at most 16 bytes (`telemetry` by
/// default; crosstalk: a distance or partition, `100` by default).
pub open spec fn spec_pending(
    sub: SensorSubcommand,
    arg1: Option<Seq<char>>,
    partition: Option<Seq<char>>,
) -> Result<PendingShape, Seq<char>> {
    match sub {
        SensorSubcommand::Status => match arg1 {
            None => Ok(PendingShape::Status(1)),
            Some(a) => match spec_parse_unsigned(a, usize::MAX as int) {
                Some(n) => Ok(PendingShape::Status(n as nat)),
                None => Err("Invalid number of readings"@),
            },
        },
        _ => match arg1 {
            None => Err("Missing direction parameter"@),
            Some(a) => match spec_direction_arg(a) {
                None => Err("Invalid direction. Expected: north, east, west"@),
                Some(d) => {
                    let xtalk = sub == SensorSubcommand::CalXTalk;
                    let p = match partition {
                        Some(p) => p,
                        None => if xtalk {
                            "100"@
                        } else {
                            "telemetry"@
                        },
                    };
                    if utf8_len(p) > 16 {
                        Err(
                            if xtalk {
                                "Parameter too long"@
                            } else {
                                "Partition name too long"@
                            },
                        )
                    } else {
                        Ok(
                            match sub {
                                SensorSubcommand::CalNear => PendingShape::CalNear(d, p),
                                SensorSubcommand::CalFar => PendingShape::CalFar(d, p),
                                _ => PendingShape::CalXTalk(d, p),
                            },
                        )
                    }
                },
            },
        },
    }
}

/// The two calibration distances of one sensor (mm): the cover (near) and the
/// 100 mm target (far).
#[derive(Clone, Copy, PartialEq, Eq, Structural, Debug)]
pub struct CalPoints {
    /// Raw distance read with the cover on.
    pub low: u16,
    /// Raw distance read with the target at 100 mm.
    pub high: u16,
}

/// The stored calibration of the three proximity sensors.
#[derive(Clone, Copy, PartialEq, Eq, Structural, Debug)]
pub struct ProximityCalibration {
    /// North sensor distances.
    pub north: CalPoints,
    /// East sensor distances.
    pub east: CalPoints,
    /// West sensor distances.
    pub west: CalPoints,
    /// Crosstalk (mMCPS) of each sensor.
    pub xtalk_m_mcps: CrossTalk,
}

/// The crosstalk (mMCPS) of each sensor.
#[derive(Clone, Copy, PartialEq, Eq, Structural, Debug)]
pub struct CrossTalk {
    /// North sensor.
    pub north: u16,
    /// East sensor.
    pub east: u16,
    /// West sensor.
    pub west: u16,
}

/// The distances of the sensor `dir`.
pub open spec fn cal_points_of(c: ProximityCalibration, dir: SensorDirection) -> CalPoints {
    match dir {
        SensorDirection::North => c.north,
        SensorDirection::East => c.east,
        SensorDirection::West => c.west,
    }
}

/// The crosstalk of the sensor `dir`.
pub open spec fn xtalk_of(c: ProximityCalibration, dir: SensorDirection) -> u16 {
    match dir {
        SensorDirection::North => c.xtalk_m_mcps.north,
        SensorDirection::East => c.xtalk_m_mcps.east,
        SensorDirection::West => c.xtalk_m_mcps.west,
    }
}

/// Whether `a` and `b` agree on every sensor but `dir`.
pub open spec fn same_elsewhere(a: ProximityCalibration, b: ProximityCalibration, dir: SensorDirection) -> bool {
    forall|d: SensorDirection|
        d != dir ==> cal_points_of(a, d) == cal_points_of(b, d) && xtalk_of(a, d) == xtalk_of(b, d)
}

impl ProximityCalibration {
    /// The calibration used when none is stored: everything zero.
    pub fn empty() -> (r: Self)
        ensures
            forall|d: SensorDirection|
                cal_points_of(r, d) == (CalPoints { low: 0, high: 0 }) && xtalk_of(r, d) == 0,
    {
        let z = CalPoints { low: 0, high: 0 };
        ProximityCalibration { north: z, east: z, west: z, xtalk_m_mcps: CrossTalk { north: 0, east: 0, west: 0 } }
    }

    /// Records a calibration distance of the sensor `dir`: the cover distance
    /// (`far` false) or the 100 mm distance (`far` true); nothing else changes.
    pub fn record_point(self, dir: SensorDirection, far: bool, d: u16) -> (r: Self)
        ensures
            cal_points_of(r, dir) == (if far {
                CalPoints { high: d, ..cal_points_of(self, dir) }
            } else {
                CalPoints { low: d, ..cal_points_of(self, dir) }
            }),
            xtalk_of(r, dir) == xtalk_of(self, dir),
            same_elsewhere(r, self, dir),
    {
        let p = match dir {
            SensorDirection::North => self.north,
            SensorDirection::East => self.east,
            SensorDirection::West => self.west,
        };
        let q = if far {
            CalPoints { high: d, ..p }
        } else {
            CalPoints { low: d, ..p }
        };
        match dir {
            SensorDirection::North => ProximityCalibration { north: q, ..self },
            SensorDirection::East => ProximityCalibration { east: q, ..self },
            SensorDirection::West => ProximityCalibration { west: q, ..self },
        }
    }

    /// Records the crosstalk of the sensor `dir`; nothing else changes.
    pub fn record_xtalk(self, dir: SensorDirection, x: u16) -> (r: Self)
        ensures
            xtalk_of(r, dir) == x,
            cal_points_of(r, dir) == cal_points_of(self, dir),
            same_elsewhere(r, self, dir),
    {
        let c = self.xtalk_m_mcps;
        let t = match dir {
            SensorDirection::North => CrossTalk { north: x, ..c },
            SensorDirection::East => CrossTalk { east: x, ..c },
            SensorDirection::West => CrossTalk { west: x, ..c },
        };
        ProximityCalibration { xtalk_m_mcps: t, ..self }
    }
}

/// The start of a `sensor` command line: the subcommand is required, then its
/// arguments must read, then the shell's scratch buffer must be free. Each
/// failure ends the command before any sensor, flash or output is touched,
/// and leaves the buffer as it was; on success the buffer stays taken for the
/// command, which gives it back when done.
pub fn plan_sensor_cli(
    buffer: &mut ScratchBuffer,
    subcommand: Option<SensorSubcommand>,
    arg1: Option<&str>,
    partition: Option<&str>,
) -> (r: Result<PendingCommand, &'static str>)
    ensures
        match subcommand {
            None => r matches Err(e) && e@ == "Missing sensor subcommand"@ && final(buffer)@ == old(buffer)@,
            Some(sub) => match spec_pending(sub, opt_chars(arg1), opt_chars(partition)) {
                Err(m) => r matches Err(e) && e@ == m && final(buffer)@ == old(buffer)@,
                Ok(sh) => match lock_refusal(old(buffer)@) {
                    Some(m) => r matches Err(e) && e@ == m && final(buffer)@ == old(buffer)@,
                    None => r matches Ok(c) && pending_shape(c) == sh && final(buffer)@
                        == ScratchBufferView { locked: true, ..old(buffer)@ },
                },
            },
        },
{
    let sub = match subcommand {
        Some(s) => s,
        None => return Err("Missing sensor subcommand"),
    };
    let cmd = PendingCommand::parse(sub, arg1, partition)?;
    buffer.lock()?;
    Ok(cmd)
}

impl PendingCommand {
    /// Reads the arguments of a sensor command line.
    pub fn parse(subcommand: SensorSubcommand, arg1: Option<&str>, partition: Option<&str>) -> (r: Result<PendingCommand, &'static str>)
        ensures
            match spec_pending(subcommand, opt_chars(arg1), opt_chars(partition)) {
                Ok(sh) => r matches Ok(c) && pending_shape(c) == sh,
                Err(m) => r matches Err(e) && e@ == m,
            },
    {
        proof {
            crate::parse::lemma_parse_unsigned_range(
                match arg1 {
                    Some(a) => a@,
                    None => Seq::empty(),
                },
                usize::MAX as int,
            );
        }
        if let SensorSubcommand::Status = subcommand {
            let n: usize = match arg1 {
                Some(s) => match parse_usize(s) {
                    Some(n) => n,
                    None => return Err("Invalid number of readings"),
                },
                None => 1,
            };
            return Ok(PendingCommand::Status(n));
        }
        let dir_str = match arg1 {
            Some(s) => s,
            None => return Err("Missing direction parameter"),
        };
        let direction = if str_eq(dir_str, "north") {
            SensorDirection::North
        } else if str_eq(dir_str, "east") {
            SensorDirection::East
        } else if str_eq(dir_str, "west") {
            SensorDirection::West
        } else {
            return Err("Invalid direction. Expected: north, east, west");
        };
        match subcommand {
            SensorSubcommand::CalXTalk => {
                let p = match partition {
                    Some(p) => p,
                    None => "100",
                };
                match bounded_from(p) {
                    Ok(s) => Ok(PendingCommand::CalXTalk { direction, distance_or_partition: s }),
                    Err(_) => Err("Parameter too long"),
                }
            },
            _ => {
                let p = match partition {
                    Some(p) => p,
                    None => "telemetry",
                };
                match bounded_from(p) {
                    Ok(s) => match subcommand {
                        SensorSubcommand::CalNear => Ok(PendingCommand::CalNear { direction, partition: s }),
                        _ => Ok(PendingCommand::CalFar { direction, partition: s }),
                    },
                    Err(_) => Err("Partition name too long"),
                }
            },
        }
    }

    /// The text parameter of a calibration: its partition (crosstalk: its
    /// distance or partition).
    pub fn parameter(&self) -> (r: Option<&str>)
        ensures
            match pending_shape(*self) {
                PendingShape::Status(_) => r is None,
                PendingShape::CalNear(_, p) => r matches Some(s) && s@ == p,
                PendingShape::CalFar(_, p) => r matches Some(s) && s@ == p,
                PendingShape::CalXTalk(_, p) => r matches Some(s) && s@ == p,
            },
    {
        match self {
            PendingCommand::Status(_) => None,
            PendingCommand::CalNear { partition, .. } => Some(bounded_as_str(partition)),
            PendingCommand::CalFar { partition, .. } => Some(bounded_as_str(partition)),
            PendingCommand::CalXTalk { distance_or_partition, .. } => Some(bounded_as_str(distance_or_partition)),
        }
    }
}


/// One attempt at a calibration sample: the sample kept so far and whether to
/// stop. A successful read is kept; an invalid reading or one under 900 mm
/// ends the attempts. A failed or unsent read keeps the previous sample.
pub open spec fn spec_cal_sample_step(kept: SensorReading, attempt: Option<SensorReading>) -> (SensorReading, bool) {
    match attempt {
        None => (kept, false),
        Some(r) => (
            r,
            match r {
                SensorReading::Proximity(d) => d < MAX_CALIBRATION_RAW_MM,
                SensorReading::Invalid => true,
            },
        ),
    }
}

/// One attempt at a calibration sample.
pub fn cal_sample_step(kept: SensorReading, attempt: Option<SensorReading>) -> (r: (SensorReading, bool))
    ensures
        r == spec_cal_sample_step(kept, attempt),
{
    match attempt {
        None => (kept, false),
        Some(r) => {
            let done = match r {
                SensorReading::Proximity(d) => d < MAX_CALIBRATION_RAW_MM,
                SensorReading::Invalid => true,
            };
            (r, done)
        },
    }
}

/// The sample kept after up to ten attempts, starting from an invalid reading.
pub open spec fn spec_cal_sample(attempts: Seq<Option<SensorReading>>) -> SensorReading
    decreases attempts.len(),
{
    if attempts.len() == 0 {
        SensorReading::Invalid
    } else {
        let prev = spec_cal_sample(attempts.drop_last());
        if cal_sampling_done(attempts.drop_last()) {
            prev
        } else {
            spec_cal_sample_step(prev, attempts.last()).0
        }
    }
}

/// Whether the attempts ended early.
pub open spec fn cal_sampling_done(attempts: Seq<Option<SensorReading>>) -> bool
    decreases attempts.len(),
{
    if attempts.len() == 0 {
        false
    } else {
        cal_sampling_done(attempts.drop_last()) || spec_cal_sample_step(
            spec_cal_sample(attempts.drop_last()),
            attempts.last(),
        ).1
    }
}

/// The sample kept from a run of attempts: attempts after the one that ended
/// the run are ignored, and at most ten are read.
pub fn cal_sample(attempts: &Vec<Option<SensorReading>>) -> (r: SensorReading)
    ensures
        r == spec_cal_sample(
            attempts@.take(
                if attempts@.len() < CAL_READ_ATTEMPTS {
                    attempts@.len() as int
                } else {
                    CAL_READ_ATTEMPTS as int
                },
            ),
        ),
{
    let n: usize = if attempts.len() < CAL_READ_ATTEMPTS {
        attempts.len()
    } else {
        CAL_READ_ATTEMPTS
    };
    let mut kept = SensorReading::Invalid;
    let mut done = false;
    let mut i: usize = 0;
    while i < n
        invariant
            n <= attempts@.len(),
            i <= n,
            kept == spec_cal_sample(attempts@.take(i as int)),
            done == cal_sampling_done(attempts@.take(i as int)),
        decreases n - i,
    {
        proof {
            assert(attempts@.take(i as int + 1).drop_last() =~= attempts@.take(i as int));
        }
        if !done {
            let (k, d) = cal_sample_step(kept, attempts[i]);
            kept = k;
            done = d;
        }
        i = i + 1;
    }
    kept
}

/// The calibration distance of a sample: valid under 900 mm. `far` names the
/// 100 mm calibration in the message, else the cover calibration.
pub open spec fn spec_cal_point(sample: SensorReading, far: bool) -> Result<u16, Seq<char>> {
    match sample {
        SensorReading::Proximity(d) => if d < MAX_CALIBRATION_RAW_MM {
            Ok(d)
        } else if far {
            Err("Target too far for 100mm calibration"@)
        } else {
            Err("Target too far for cover calibration"@)
        },
        SensorReading::Invalid => Err("Sensor disconnected or invalid reading"@),
    }
}

/// The calibration distance of a sample.
pub fn cal_point(sample: SensorReading, far: bool) -> (r: Result<u16, &'static str>)
    ensures
        match spec_cal_point(sample, far) {
            Ok(d) => r == Ok::<u16, &'static str>(d),
            Err(m) => r matches Err(e) && e@ == m,
        },
{
    match sample {
        SensorReading::Proximity(d) => if d < MAX_CALIBRATION_RAW_MM {
            Ok(d)
        } else if far {
            Err("Target too far for 100mm calibration")
        } else {
            Err("Target too far for cover calibration")
        },
        SensorReading::Invalid => Err("Sensor disconnected or invalid reading"),
    }
}

/// One attempt at a crosstalk sample: a successful read is kept with its rate;
/// a valid distance ends the attempts.
pub fn xtalk_sample_step(kept: (SensorReading, u16), attempt: Option<(SensorReading, u16)>) -> (r: ((SensorReading, u16), bool))
    ensures
        r == (match attempt {
            None => (kept, false),
            Some(a) => (a, a.0 is Proximity),
        }),
{
    match attempt {
        None => (kept, false),
        Some(a) => {
            let done = match a.0 {
                SensorReading::Proximity(_) => true,
                SensorReading::Invalid => false,
            };
            (a, done)
        },
    }
}

/// The calibration distance of a crosstalk calibration: its parameter as a
/// number, 100 mm when it is not one.
pub open spec fn spec_xtalk_distance(param: Seq<char>) -> u16 {
    match spec_parse_unsigned(param, u16::MAX as int) {
        Some(v) => v as u16,
        None => DEFAULT_XTALK_DISTANCE_MM,
    }
}

/// The calibration distance of a crosstalk calibration.
pub fn xtalk_distance(param: &str) -> (r: u16)
    ensures
        r == spec_xtalk_distance(param@),
{
    match parse_u16(param) {
        Some(v) => v,
        None => DEFAULT_XTALK_DISTANCE_MM,
    }
}

/// Crosstalk in milli-MCPS from the peak return rate measured at `measured_mm`
/// in front of a target at `cal_mm`:
/// `peak * 1000 * (cal_mm - measured_mm) / (128 * cal_mm)`, kept to 16 bits.
pub open spec fn xtalk_m_mcps(peak_rate: u16, measured_mm: u16, cal_mm: u16) -> u16 {
    ((peak_rate * 1000 * (cal_mm - measured_mm)) / (128 * cal_mm)) as u16
}

/// The crosstalk of a sample, or the reason there is none: the sample must be
/// a valid distance shorter than the calibration distance.
pub open spec fn spec_xtalk_result(sample: SensorReading, peak_rate: u16, cal_mm: u16) -> Result<u16, Seq<char>> {
    match sample {
        SensorReading::Invalid => Err("Sensor disconnected or invalid reading"@),
        SensorReading::Proximity(d) => if d >= cal_mm {
            Err("Measured distance must be less than calibration distance"@)
        } else {
            Ok(xtalk_m_mcps(peak_rate, d, cal_mm))
        },
    }
}

/// A calibration sample is accepted exactly when it is a valid distance under
/// 900 mm, and then it is that distance. Crosstalk needs a valid distance
/// shorter than the calibration distance, and is then the peak rate times
/// 1000 times the shortfall, over 128 times the calibration distance: 0 when
/// the sample is at the calibration distance's edge with no shortfall left,
/// and never more for a sample closer to the calibration distance.
pub proof fn lemma_calibration_figures(sample: SensorReading, far: bool, peak: u16, d: u16, d2: u16, cal_mm: u16)
    requires
        d <= d2 < cal_mm,
        peak * 1000 * (cal_mm - d) <= u32::MAX,
    ensures
        (spec_cal_point(sample, far) is Ok) == (sample matches SensorReading::Proximity(x) && x < 900),
        spec_cal_point(sample, far) matches Ok(x) ==> sample == SensorReading::Proximity(x),
        spec_xtalk_result(SensorReading::Invalid, peak, cal_mm) is Err,
        spec_xtalk_result(SensorReading::Proximity(cal_mm), peak, cal_mm) is Err,
        spec_xtalk_result(SensorReading::Proximity(d), peak, cal_mm) == Ok::<u16, Seq<char>>(
            ((peak as int * 1000 * (cal_mm - d)) / (128 * cal_mm as int)) as u16,
        ),
        ((peak as int * 1000 * (cal_mm - d2)) / (128 * cal_mm as int)) <= ((peak as int * 1000 * (cal_mm
            - d)) / (128 * cal_mm as int)),
{
    let p = peak as int;
    let c = cal_mm as int;
    assert(p * 1000 * (c - d2) <= p * 1000 * (c - d)) by (nonlinear_arith)
        requires
            0 <= p,
            d <= d2 < c,
    ;
    assert(0 <= p * 1000 * (c - d2)) by (nonlinear_arith)
        requires
            0 <= p,
            d2 < c,
    ;
    assert((p * 1000 * (c - d2)) / (128 * c) <= (p * 1000 * (c - d)) / (128 * c)) by (nonlinear_arith)
        requires
            0 <= p * 1000 * (c - d2) <= p * 1000 * (c - d),
            128 * c > 0,
    ;
}

/// The crosstalk product of a sample fits in 32 bits.
pub open spec fn xtalk_fits(sample: SensorReading, peak_rate: u16, cal_mm: u16) -> bool {
    match sample {
        SensorReading::Proximity(d) => d < cal_mm ==> peak_rate * 1000 * (cal_mm - d) <= u32::MAX,
        SensorReading::Invalid => true,
    }
}

/// The crosstalk of a sample. The product `peak * 1000 * (cal_mm - d)` is
/// computed in 32 bits and must fit there.
pub fn xtalk_result(sample: SensorReading, peak_rate: u16, cal_mm: u16) -> (r: Result<u16, &'static str>)
    requires
        xtalk_fits(sample, peak_rate, cal_mm),
    ensures
        match spec_xtalk_result(sample, peak_rate, cal_mm) {
            Ok(x) => r == Ok::<u16, &'static str>(x),
            Err(m) => r matches Err(e) && e@ == m,
        },
{
    match sample {
        SensorReading::Invalid => Err("Sensor disconnected or invalid reading"),
        SensorReading::Proximity(d) => if d >= cal_mm {
            Err("Measured distance must be less than calibration distance")
        } else {
            let diff: u32 = (cal_mm - d) as u32;
            proof {
                assert(peak_rate as u32 * 1000 <= 65535 * 1000) by (nonlinear_arith)
                    requires
                        peak_rate <= 65535,
                ;
            }
            let num: u32 = peak_rate as u32 * 1000 * diff;
            let den: u32 = 128 * cal_mm as u32;
            Ok((num / den) as u16)
        },
    }
}

/// How a reading is shown by `sensor status`.
#[derive(Clone, Copy, PartialEq, Eq, Structural, Debug)]
pub enum ReadingDisplay {
    /// The read failed.
    Failed,
    /// No valid target.
    Invalid,
    /// A raw distance (mm).
    Plain(u16),
    /// A raw distance and its calibrated form (mm).
    Calibrated(u16, u16),
    /// A raw distance, its calibrated form (mm) and the crosstalk (mMCPS).
    WithXTalk(u16, u16, u16),
}

/// How a reading is shown: `calibrated` is the calibrated form of the reading
/// (the reading itself when there is no calibration) and `xtalk` the stored
/// crosstalk (0 when none). The crosstalk is shown when positive; otherwise the
/// calibrated distance when it differs from the raw one.
pub open spec fn spec_reading_display(
    dist: Result<SensorReading, PeripheralError>,
    calibrated: SensorReading,
    xtalk: u16,
) -> ReadingDisplay {
    match dist {
        Err(_) => ReadingDisplay::Failed,
        Ok(SensorReading::Invalid) => ReadingDisplay::Invalid,
        Ok(SensorReading::Proximity(d)) => {
            let cal_d = match calibrated {
                SensorReading::Proximity(v) => v,
                SensorReading::Invalid => d,
            };
            if xtalk > 0 {
                ReadingDisplay::WithXTalk(d, cal_d, xtalk)
            } else if cal_d != d {
                ReadingDisplay::Calibrated(d, cal_d)
            } else {
                ReadingDisplay::Plain(d)
            }
        },
    }
}

/// How a reading is shown by `sensor status`.
pub fn reading_display(dist: Result<SensorReading, PeripheralError>, calibrated: SensorReading, xtalk: u16) -> (r: ReadingDisplay)
    ensures
        r == spec_reading_display(dist, calibrated, xtalk),
{
    match dist {
        Err(_) => ReadingDisplay::Failed,
        Ok(SensorReading::Invalid) => ReadingDisplay::Invalid,
        Ok(SensorReading::Proximity(d)) => {
            let cal_d = match calibrated {
                SensorReading::Proximity(v) => v,
                SensorReading::Invalid => d,
            };
            if xtalk > 0 {
                ReadingDisplay::WithXTalk(d, cal_d, xtalk)
            } else if cal_d != d {
                ReadingDisplay::Calibrated(d, cal_d)
            } else {
                ReadingDisplay::Plain(d)
            }
        },
    }
}

/// The direction of a sensor named `north`, `east` or `west`.
pub fn direction_of_name(name: &str) -> (r: Option<Direction>)
    ensures
        r == (match spec_direction_arg(name@) {
            Some(d) => Some(spec_direction_of(d)),
            None => None,
        }),
{
    if str_eq(name, "north") {
        Some(Direction::North)
    } else if str_eq(name, "east") {
        Some(Direction::East)
    } else if str_eq(name, "west") {
        Some(Direction::West)
    } else {
        None
    }
}


/// Whether some direction sees an object closer than the wake threshold.
pub open spec fn any_in_range(distances: Seq<u16>, wake_threshold_mm: u16) -> bool {
    exists|i: int| 0 <= i < distances.len() && distances[i] < wake_threshold_mm
}

/// The proximity action when the presence of an object changes: an arrival
/// holds the system awake when active and wakes it when asleep; a departure
/// releases the wake lock when active. No change, no action.
pub open spec fn presence_action(was_active: bool, in_range: bool, status: SystemStatus) -> ProximityAction {
    if in_range == was_active {
        ProximityAction::NoAction
    } else if in_range {
        if status == SystemStatus::Active {
            ProximityAction::AcquireWakeLock
        } else if status == SystemStatus::Sleep {
            ProximityAction::WakeSystem
        } else {
            ProximityAction::NoAction
        }
    } else if status == SystemStatus::Active {
        ProximityAction::ReleaseWakeLock
    } else {
        ProximityAction::NoAction
    }
}

/// The proximity sensors' part in the system's reactions: presence tracking,
/// wake locks, gesture mapping and read intervals.
pub struct ProximityFeatureConfig {
    /// Number of sensors that take commands (at most three).
    pub sensor_count: usize,
    /// Distance (mm) under which the gesture detector counts a press.
    pub press_threshold_mm: u16,
    /// Distance (mm) under which the gesture detector counts a near object.
    pub near_threshold_mm: u16,
    /// Proximity telemetry.
    pub telemetry_client: ProximityTelemetryClient,
    /// Whether an object is present.
    pub proximity_active: bool,
    /// Distance (mm) under which an object is present.
    pub wake_threshold_mm: u16,
    /// Last distance (mm) seen per direction (north, east, west).
    pub distances: [u16; 3],
    /// What a long press with both side sensors does.
    pub dual_long_press_action: GestureAction,
}

impl ProximityFeatureConfig {
    /// Creates the feature: no object present, every direction at 1000 mm.
    pub fn new(
        sensor_count: usize,
        press_threshold_mm: u16,
        near_threshold_mm: u16,
        wake_threshold_mm: u16,
        dual_long_press_action: GestureAction,
        telemetry_enabled: bool,
    ) -> (r: Self)
        ensures
            r.sensor_count == (if sensor_count < 3 {
                sensor_count
            } else {
                3
            }),
            r.press_threshold_mm == press_threshold_mm,
            r.near_threshold_mm == near_threshold_mm,
            r.telemetry_client@.enabled == telemetry_enabled,
            r.telemetry_client@.wake_threshold_mm == wake_threshold_mm,
            r.telemetry_client@.last_logged_distance == seq![9999u16, 9999u16, 9999u16],
            r.telemetry_client@.last_logged_in_range == seq![None::<bool>, None::<bool>, None::<bool>],
            r.telemetry_client@.pending == Seq::<crate::model::TelemetryRecord>::empty(),
            !r.proximity_active,
            r.wake_threshold_mm == wake_threshold_mm,
            r.distances@ == seq![UNSEEN_DISTANCE_MM, UNSEEN_DISTANCE_MM, UNSEEN_DISTANCE_MM],
            r.dual_long_press_action == dual_long_press_action,
    {
        let r = ProximityFeatureConfig {
            sensor_count: if sensor_count < 3 {
                sensor_count
            } else {
                3
            },
            press_threshold_mm,
            near_threshold_mm,
            telemetry_client: ProximityTelemetryClient::new(telemetry_enabled, wake_threshold_mm),
            proximity_active: false,
            wake_threshold_mm,
            distances: [UNSEEN_DISTANCE_MM; 3],
            dual_long_press_action,
        };
        assert(r.distances@ =~= seq![UNSEEN_DISTANCE_MM, UNSEEN_DISTANCE_MM, UNSEEN_DISTANCE_MM]);
        r
    }

    /// Takes a proximity reading of `direction`: reports it, remembers its
    /// distance (an invalid reading counts as infinitely far), tracks whether
    /// any object is present and says what that change asks of the system.
    /// `detected` is what the gesture detector made of the reading; it passes
    /// through unless the reading is invalid.
    pub fn on_proximity_update(
        &mut self,
        direction: Direction,
        reading: SensorReading,
        status: SystemStatus,
        detected: Option<Gesture>,
    ) -> (r: (Option<Gesture>, ProximityAction))
        ensures
            ({
                let o = *old(self);
                let mm = reading_mm(reading);
                let distances = o.distances@.update(crate::model::direction_index(direction), mm);
                let in_range = any_in_range(distances, o.wake_threshold_mm);
                &&& final(self).distances@ == distances
                &&& final(self).proximity_active == in_range
                &&& final(self).telemetry_client@ == crate::telemetry_controller::proximity_reported(
                    o.telemetry_client@,
                    direction,
                    mm,
                )
                &&& final(self).sensor_count == o.sensor_count
                &&& final(self).wake_threshold_mm == o.wake_threshold_mm
                &&& final(self).press_threshold_mm == o.press_threshold_mm
                &&& final(self).near_threshold_mm == o.near_threshold_mm
                &&& final(self).dual_long_press_action == o.dual_long_press_action
                &&& r.0 == (if reading is Invalid {
                    None
                } else {
                    detected
                })
                &&& r.1 == presence_action(o.proximity_active, in_range, status)
            }),
    {
        let mm = distance_of(reading);
        self.telemetry_client.report((direction, mm));
        let idx = direction.index();
        let gesture = match reading {
            SensorReading::Invalid => None,
            SensorReading::Proximity(_) => detected,
        };
        self.distances[idx] = mm;
        let in_range = self.distances[0] < self.wake_threshold_mm || self.distances[1] < self.wake_threshold_mm
            || self.distances[2] < self.wake_threshold_mm;
        proof {
            if in_range {
                if self.distances[0] < self.wake_threshold_mm {
                    assert(self.distances@[0] < self.wake_threshold_mm);
                } else if self.distances[1] < self.wake_threshold_mm {
                    assert(self.distances@[1] < self.wake_threshold_mm);
                } else {
                    assert(self.distances@[2] < self.wake_threshold_mm);
                }
            }
        }
        let mut action = ProximityAction::NoAction;
        if in_range != self.proximity_active {
            self.proximity_active = in_range;
            if in_range {
                match status {
                    SystemStatus::Active => {
                        action = ProximityAction::AcquireWakeLock;
                    },
                    SystemStatus::Sleep => {
                        action = ProximityAction::WakeSystem;
                    },
                    SystemStatus::PowerDown => {},
                }
            } else {
                match status {
                    SystemStatus::Active => {
                        action = ProximityAction::ReleaseWakeLock;
                    },
                    _ => {},
                }
            }
        }
        (gesture, action)
    }

    /// The system action of a gesture: only the dual long press does something.
    pub fn map_gesture(&self, gesture: Gesture, status: SystemStatus) -> (r: GestureAction)
        ensures
            r == (if gesture is DualLongPress {
                self.dual_long_press_action
            } else {
                GestureAction::NoAction
            }),
    {
        match gesture {
            Gesture::DualLongPress => self.dual_long_press_action,
            _ => GestureAction::NoAction,
        }
    }

    /// Reports a new read interval; returns the command for each sensor.
    pub fn set_interval(&mut self, interval: PeriodicInterval) -> (r: Vec<SensorCommand>)
        ensures
            r@ == Seq::new(old(self).sensor_count as nat, |i: int| SensorCommand::SetInterval(interval)),
            final(self).telemetry_client@ == (ProximityClientView {
                pending: if old(self).telemetry_client@.enabled {
                    old(self).telemetry_client@.pending.push(
                        crate::model::TelemetryRecord::PeriodicInterval(Device::Sensors, interval),
                    )
                } else {
                    old(self).telemetry_client@.pending
                },
                ..old(self).telemetry_client@
            }),
            final(self).distances == old(self).distances,
            final(self).proximity_active == old(self).proximity_active,
            final(self).sensor_count == old(self).sensor_count,
            final(self).wake_threshold_mm == old(self).wake_threshold_mm,
    {
        self.telemetry_client.report_interval(Device::Sensors, interval);
        let mut v: Vec<SensorCommand> = Vec::new();
        let mut i: usize = 0;
        while i < self.sensor_count
            invariant
                i <= self.sensor_count,
                v@ == Seq::new(i as nat, |k: int| SensorCommand::SetInterval(interval)),
            decreases self.sensor_count - i,
        {
            v.push(SensorCommand::SetInterval(interval));
            i = i + 1;
            proof {
                assert(v@ =~= Seq::new(i as nat, |k: int| SensorCommand::SetInterval(interval)));
            }
        }
        v
    }

    /// Reads every 200 ms while active and every second otherwise.
    pub fn on_state_changed(&mut self, from: SystemStatus, to: SystemStatus) -> (r: Vec<SensorCommand>)
        ensures
            ({
                let interval = PeriodicInterval::UpdateMs(
                    if to == SystemStatus::Active {
                        ACTIVE_PROXIMITY_MS
                    } else {
                        IDLE_PROXIMITY_MS
                    },
                );
                &&& r@ == Seq::new(old(self).sensor_count as nat, |i: int| SensorCommand::SetInterval(interval))
                &&& final(self).telemetry_client@ == (ProximityClientView {
                    pending: if old(self).telemetry_client@.enabled {
                        old(self).telemetry_client@.pending.push(
                            crate::model::TelemetryRecord::PeriodicInterval(Device::Sensors, interval),
                        )
                    } else {
                        old(self).telemetry_client@.pending
                    },
                    ..old(self).telemetry_client@
                })
                &&& final(self).distances == old(self).distances
                &&& final(self).proximity_active == old(self).proximity_active
            }),
    {
        let ms = match to {
            SystemStatus::Active => ACTIVE_PROXIMITY_MS,
            _ => IDLE_PROXIMITY_MS,
        };
        self.set_interval(PeriodicInterval::UpdateMs(ms))
    }
}

/// A reading that brings an object under the wake threshold while nothing was
/// present wakes a sleeping system and holds an active one awake.
pub proof fn lemma_arrival_wakes(was_active: bool, status: SystemStatus)
    requires
        !was_active,
        status != SystemStatus::PowerDown,
    ensures
        presence_action(was_active, true, status) == (if status == SystemStatus::Active {
            ProximityAction::AcquireWakeLock
        } else {
            ProximityAction::WakeSystem
        }),
{
}

/// When the object leaves, an active system lets go of its wake lock and any
/// other state is left alone; a powered-down system is never woken.
pub proof fn lemma_departure_releases(status: SystemStatus, was_active: bool, in_range: bool)
    ensures
        presence_action(true, false, status) == (if status == SystemStatus::Active {
            ProximityAction::ReleaseWakeLock
        } else {
            ProximityAction::NoAction
        }),
        status == SystemStatus::PowerDown ==> presence_action(was_active, in_range, status)
            == ProximityAction::NoAction,
        presence_action(was_active, in_range, status) == ProximityAction::WakeSystem ==> !was_active
            && in_range && status == SystemStatus::Sleep,
{
}

/// An object counts as present only strictly under the wake threshold: a
/// direction reading exactly the threshold, or more, is out of range.
pub proof fn lemma_presence_threshold(d: u16, e: u16, wake_threshold_mm: u16)
    ensures
        any_in_range(seq![d], wake_threshold_mm) <==> d < wake_threshold_mm,
        any_in_range(seq![d, e], wake_threshold_mm) <==> (d < wake_threshold_mm || e < wake_threshold_mm),
        !any_in_range(Seq::<u16>::empty(), wake_threshold_mm),
{
    if d < wake_threshold_mm {
        assert(seq![d][0] == d);
        assert(seq![d, e][0] == d);
    }
    if e < wake_threshold_mm {
        assert(seq![d, e][1] == e);
    }
    if any_in_range(seq![d, e], wake_threshold_mm) {
        let i = choose|i: int| 0 <= i < 2 && seq![d, e][i] < wake_threshold_mm;
        assert(i == 0 || i == 1);
    }
}

/// Readings that leave presence unchanged ask nothing of the system.
pub proof fn lemma_no_change_no_action(active: bool, status: SystemStatus)
    ensures
        presence_action(active, active, status) == ProximityAction::NoAction,
{
}

/// An invalid reading clears its direction: it can only end a presence, never
/// start one.
pub proof fn lemma_invalid_reading_never_arrives(distances: Seq<u16>, idx: int, wake_threshold_mm: u16)
    requires
        0 <= idx < distances.len(),
    ensures
        any_in_range(distances.update(idx, u16::MAX), wake_threshold_mm) ==> any_in_range(distances, wake_threshold_mm),
{
    if any_in_range(distances.update(idx, u16::MAX), wake_threshold_mm) {
        let i = choose|i: int| 0 <= i < distances.len() && distances.update(idx, u16::MAX)[i] < wake_threshold_mm;
        assert(i != idx);
        assert(distances[i] < wake_threshold_mm);
    }
}


} // verus!
