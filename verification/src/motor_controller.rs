//! Motor controller: speed ramping, start/stop commands and load safety limits.

use crate::model::{MotorSpeed, MotorStatus, PeripheralError, TelemetryRecord, speed_from};
use crate::parse::{parse_i8, parse_u32, spec_parse_signed, spec_parse_unsigned, str_eq};
use crate::types::DeviceSupport;
use crate::telemetry_controller::{ForwardingClientView, MotorTelemetryClient, TelemetryClient, forwarded};
use vstd::prelude::*;

verus! {

/// Operating states of the motor controller.
#[derive(Clone, Copy, PartialEq, Eq, Structural, Debug)]
pub enum MotorState {
    /// The motor is powered off.
    Off,
    /// The motor runs towards its target speed.
    On,
}

/// Result of a safety check.
#[derive(Clone, Copy, PartialEq, Eq, Structural, Debug)]
pub enum MotorSafetyStatus {
    /// All limits hold.
    Safe,
    /// The RPM exceeded the safety limit.
    RpmExceeded(u32),
    /// Current under the minimum: the pump runs dry.
    DryRun(i32),
    /// Current over the maximum: the motor stalls.
    Stall(i32),
}

/// Safety limits of the motor.
#[derive(Clone, Copy, PartialEq, Eq, Structural, Debug)]
pub struct MotorLimits {
    /// Minimum current in mA; below it the pump runs dry.
    pub min_current_ma: i32,
    /// Maximum current in mA; above it the motor stalls.
    pub max_current_ma: i32,
    /// Physical RPM at 100% duty cycle (0 when not calibrated).
    pub max_rpm: u32,
    /// RPM safety cut-off (0 disables the check).
    pub rpm_limit: u32,
}

/// The verdict of the safety check on `rpm` and `current_ma`.
pub open spec fn spec_check_limits(l: MotorLimits, rpm: u32, current_ma: i32) -> MotorSafetyStatus {
    if l.rpm_limit > 0 && rpm > l.rpm_limit {
        MotorSafetyStatus::RpmExceeded(rpm)
    } else if current_ma < l.min_current_ma {
        MotorSafetyStatus::DryRun(current_ma)
    } else if current_ma > l.max_current_ma {
        MotorSafetyStatus::Stall(current_ma)
    } else {
        MotorSafetyStatus::Safe
    }
}

impl MotorLimits {
    /// Checks `rpm` and `current_ma` against the limits, in the order RPM, dry
    /// run, stall.
    pub fn check_limits(&self, rpm: u32, current_ma: i32) -> (r: MotorSafetyStatus)
        ensures
            r == spec_check_limits(*self, rpm, current_ma),
    {
        if self.rpm_limit > 0 && rpm > self.rpm_limit {
            return MotorSafetyStatus::RpmExceeded(rpm);
        }
        if current_ma < self.min_current_ma {
            return MotorSafetyStatus::DryRun(current_ma);
        }
        if current_ma > self.max_current_ma {
            return MotorSafetyStatus::Stall(current_ma);
        }
        MotorSafetyStatus::Safe
    }
}

/// Measurement modes of a current sensor.
#[derive(Clone, Copy, PartialEq, Eq, Structural, Debug)]
pub enum PowerMeasurementMode {
    /// Continuous measurement of (shunt, bus).
    Continuous(bool, bool),
    /// Power-down.
    PowerDown,
}

/// Errors of the motor control loop.
#[derive(Clone, Copy, PartialEq, Eq, Debug)]
pub enum MotorError<ME, CE> {
    /// The motor driver failed.
    Motor(ME),
    /// The current sensor failed.
    CurrentSensor(CE),
}

/// A motor driver. Its implementations promise that what a call returns, and
/// the driver's state afterwards, follow from the driver's state before the
/// call and the call's arguments; these contracts are not proved here.
pub trait Motor: Sized {
    /// What driving the motor at `speed` returns.
    spec fn set_speed_result(&self, speed: MotorSpeed) -> Result<(), PeripheralError>;

    /// The driver after driving the motor at `speed`.
    spec fn after_set_speed(&self, speed: MotorSpeed) -> Self;

    /// What stopping the motor returns.
    spec fn stop_result(&self) -> Result<(), PeripheralError>;

    /// The driver after stopping the motor.
    spec fn after_stop(&self) -> Self;

    /// Drives the motor at `speed`.
    fn set_speed(&mut self, speed: MotorSpeed) -> (r: Result<(), PeripheralError>)
        ensures
            r == old(self).set_speed_result(speed),
            *final(self) == old(self).after_set_speed(speed),
    ;

    /// Stops the motor.
    fn stop(&mut self) -> (r: Result<(), PeripheralError>)
        ensures
            r == old(self).stop_result(),
            *final(self) == old(self).after_stop(),
    ;
}

/// A driver that needs periodic ticks (for example software PWM). Its
/// implementations promise that what a tick returns, and the driver afterwards,
/// follow from the driver before the tick; this contract is not proved here.
pub trait Tickable: Sized {
    /// What a tick returns.
    spec fn tick_result(&self) -> Result<(), PeripheralError>;

    /// The driver after a tick.
    spec fn after_tick(&self) -> Self;

    /// Advances the driver by one tick.
    fn tick(&mut self) -> (r: Result<(), PeripheralError>)
        ensures
            r == old(self).tick_result(),
            *final(self) == old(self).after_tick(),
    ;
}

/// A current sensor. Its implementations promise that what a call returns, and
/// the sensor afterwards, follow from the sensor before the call and the call's
/// arguments; these contracts are not proved here.
pub trait PowerSensor: Sized {
    /// What reading the current returns.
    spec fn current_result(&self) -> Result<i32, PeripheralError>;

    /// The sensor after a reading.
    spec fn after_read(&self) -> Self;

    /// What switching to `mode` returns.
    spec fn mode_result(&self, mode: PowerMeasurementMode) -> Result<(), PeripheralError>;

    /// The sensor after switching to `mode`.
    spec fn after_mode(&self, mode: PowerMeasurementMode) -> Self;

    /// Reads the current in mA.
    fn read_current_ma(&mut self) -> (r: Result<i32, PeripheralError>)
        ensures
            r == old(self).current_result(),
            *final(self) == old(self).after_read(),
    ;

    /// Switches the measurement mode.
    fn set_measurement_mode(&mut self, mode: PowerMeasurementMode) -> (r: Result<(), PeripheralError>)
        ensures
            r == old(self).mode_result(mode),
            *final(self) == old(self).after_mode(mode),
    ;
}

/// Wraps a motor driver that needs no ticks: its `tick` does nothing.
pub struct NoTick<M> {
    /// The wrapped driver.
    pub inner: M,
}

impl<M> NoTick<M> {
    /// Wraps `inner`.
    pub fn new(inner: M) -> (r: Self)
        ensures
            r.inner == inner,
    {
        NoTick { inner }
    }
}

impl<M: Motor> Motor for NoTick<M> {
    open spec fn set_speed_result(&self, speed: MotorSpeed) -> Result<(), PeripheralError> {
        self.inner.set_speed_result(speed)
    }

    open spec fn after_set_speed(&self, speed: MotorSpeed) -> Self {
        NoTick { inner: self.inner.after_set_speed(speed) }
    }

    open spec fn stop_result(&self) -> Result<(), PeripheralError> {
        self.inner.stop_result()
    }

    open spec fn after_stop(&self) -> Self {
        NoTick { inner: self.inner.after_stop() }
    }

    /// Drives the wrapped driver.
    fn set_speed(&mut self, speed: MotorSpeed) -> (r: Result<(), PeripheralError>) {
        self.inner.set_speed(speed)
    }

    /// Stops the wrapped driver.
    fn stop(&mut self) -> (r: Result<(), PeripheralError>) {
        self.inner.stop()
    }
}

impl<M> Tickable for NoTick<M> {
    open spec fn tick_result(&self) -> Result<(), PeripheralError> {
        Ok(())
    }

    open spec fn after_tick(&self) -> Self {
        *self
    }

    /// Does nothing: the wrapped driver needs no ticks.
    fn tick(&mut self) -> (r: Result<(), PeripheralError>) {
        Ok(())
    }
}

/// Commands sent to the motor controller.
#[derive(Clone, Copy, PartialEq, Eq, Structural, Debug)]
pub enum MotorCommand {
    /// Set the target speed.
    SetSpeed(MotorSpeed),
    /// Set the target speed from a signed RPM.
    SetSpeedRpm(i32),
    /// Stop immediately.
    Stop,
}

/// Current limits of a motor calibration.
#[derive(Clone, Copy, PartialEq, Eq, Structural, Debug)]
pub struct CurrentLimits {
    /// Dry-run threshold in mA.
    pub low: i32,
    /// Stall threshold in mA.
    pub high: i32,
}

/// Calibration data that a controller accepts.
#[derive(Clone, Copy, PartialEq, Eq, Structural, Debug)]
pub enum CalibrationType {
    /// Motor calibration.
    MotorCal {
        /// Current limits.
        current_limits: CurrentLimits,
        /// Physical RPM at 100% duty cycle.
        max_rpm: u32,
        /// RPM safety cut-off.
        rpm_limit: u32,
    },
}

/// The driver call that one tick makes before ticking the driver.
#[derive(Clone, Copy, PartialEq, Eq, Structural, Debug)]
pub enum TickCall {
    /// No speed change.
    NoCall,
    /// Drive at the given speed percentage.
    SetSpeed(i8),
    /// Stop the motor.
    Stop,
    /// Stop the motor and power the current sensor down.
    StopAndPowerDown,
}

/// The abstract state of a [`MotorController`].
pub struct MotorControllerView {
    /// Operating state.
    pub state: MotorState,
    /// Last measured current in mA.
    pub last_current_ma: i32,
    /// Target speed percentage.
    pub speed: int,
    /// Speed percentage the driver currently runs at.
    pub active_speed: int,
    /// Whether a calibration was applied.
    pub calibration_present: bool,
    /// Safety limits.
    pub limits: MotorLimits,
}

/// `active` read as an unsigned 32-bit number, as `active as u32` does.
pub open spec fn as_unsigned(active: int) -> int {
    if active >= 0 {
        active
    } else {
        active + 0x1_0000_0000
    }
}

/// The RPM estimate can be computed without overflow.
pub open spec fn rpm_defined(v: MotorControllerView) -> bool {
    v.limits.max_rpm == 0 || as_unsigned(v.active_speed) * v.limits.max_rpm <= u32::MAX
}

/// Estimated RPM: the active speed scaled by the calibrated maximum RPM.
pub open spec fn spec_current_rpm(v: MotorControllerView) -> u32 {
    if v.limits.max_rpm == 0 {
        0
    } else {
        ((as_unsigned(v.active_speed) * v.limits.max_rpm) / 100) as u32
    }
}

/// Telemetry status of the motor.
pub open spec fn status_of(v: MotorControllerView) -> MotorStatus {
    if v.state == MotorState::On {
        MotorStatus::Running(speed_from(v.speed))
    } else {
        MotorStatus::Brake
    }
}

/// The state after an emergency stop.
pub open spec fn stopped(v: MotorControllerView) -> MotorControllerView {
    MotorControllerView { state: MotorState::Off, speed: 0, active_speed: 0, ..v }
}

/// The state after a `SetSpeed(s)` command, with `s` the new target percentage.
pub open spec fn after_set_speed(v: MotorControllerView, s: int) -> MotorControllerView {
    if s != 0 && !v.calibration_present {
        MotorControllerView { speed: s, ..v }
    } else if s != 0 {
        MotorControllerView { state: MotorState::On, speed: s, ..v }
    } else {
        MotorControllerView { speed: 0, ..v }
    }
}

/// The RPM command can be converted without overflow.
pub open spec fn rpm_command_defined(rpm: i32) -> bool {
    i32::MIN <= rpm * 100 <= i32::MAX
}

/// `max_rpm` read as a signed 32-bit number, as `max_rpm as i32` does.
pub open spec fn as_signed(max_rpm: u32) -> int {
    if max_rpm <= i32::MAX {
        max_rpm as int
    } else {
        max_rpm - 0x1_0000_0000
    }
}

/// Absolute value.
pub open spec fn abs(a: int) -> int {
    if a < 0 {
        -a
    } else {
        a
    }
}

/// Rust's integer division, which truncates towards zero.
pub open spec fn trunc_div(a: int, b: int) -> int {
    if (a < 0) == (b < 0) {
        abs(a) / abs(b)
    } else {
        -(abs(a) / abs(b))
    }
}

/// Target speed percentage for a signed RPM: `rpm * 100 / max_rpm`, clamped to
/// `-100..=100`; 0 when the maximum RPM is not calibrated.
pub open spec fn speed_for_rpm(rpm: i32, max_rpm: u32) -> int {
    if max_rpm == 0 {
        0
    } else {
        let q = trunc_div(rpm * 100, as_signed(max_rpm));
        if q < -100 {
            -100
        } else if q > 100 {
            100
        } else {
            q
        }
    }
}

/// The state after a command.
pub open spec fn command_step(v: MotorControllerView, cmd: MotorCommand) -> MotorControllerView {
    match cmd {
        MotorCommand::SetSpeed(s) => after_set_speed(v, s@),
        MotorCommand::SetSpeedRpm(rpm) => after_set_speed(v, speed_for_rpm(rpm, v.limits.max_rpm)),
        MotorCommand::Stop => stopped(v),
    }
}

/// The peripheral-error record of a failed driver call; none for a successful one.
pub open spec fn error_records(r: Result<(), PeripheralError>) -> Seq<TelemetryRecord> {
    match r {
        Ok(_) => Seq::empty(),
        Err(e) => seq![TelemetryRecord::PeripheralError(e)],
    }
}

/// The outbox after offering `recs` to a forwarding client, in order.
pub open spec fn emit(v: ForwardingClientView, recs: Seq<TelemetryRecord>) -> ForwardingClientView {
    ForwardingClientView {
        enabled: v.enabled,
        pending: if v.enabled {
            v.pending + recs
        } else {
            v.pending
        },
    }
}

/// Whether setting target `s` starts a motor that is off.
pub open spec fn starts_motor(v: MotorControllerView, s: int) -> bool {
    s != 0 && v.calibration_present && v.state == MotorState::Off
}

/// The measurement mode of a running motor's current sensor.
pub open spec fn continuous_mode() -> PowerMeasurementMode {
    PowerMeasurementMode::Continuous(true, true)
}

/// The current sensor after setting target `s`: switched to continuous
/// measurement when the motor starts, untouched otherwise.
pub open spec fn set_speed_sensor<C: PowerSensor>(v: MotorControllerView, c: C, s: int) -> C {
    if starts_motor(v, s) {
        c.after_mode(continuous_mode())
    } else {
        c
    }
}

/// The records that setting target `s` reports: nothing when the motor cannot
/// start for lack of calibration; otherwise the error of the sensor's mode
/// switch (when the motor starts and the switch fails), then the new status.
pub open spec fn set_speed_records<C: PowerSensor>(v: MotorControllerView, c: C, s: int) -> Seq<
    TelemetryRecord,
> {
    if s != 0 && !v.calibration_present {
        Seq::empty()
    } else {
        let errs = if starts_motor(v, s) {
            error_records(c.mode_result(continuous_mode()))
        } else {
            Seq::empty()
        };
        errs.push(TelemetryRecord::Motor(status_of(after_set_speed(v, s))))
    }
}

/// The records of a stop: the error of the driver's stop, then that of the
/// sensor's power-down, each only when the call fails, then `Brake`.
pub open spec fn stop_records<M: Motor, C: PowerSensor>(m: M, c: C) -> Seq<TelemetryRecord> {
    (error_records(m.stop_result()) + error_records(
        c.mode_result(PowerMeasurementMode::PowerDown),
    )).push(TelemetryRecord::Motor(MotorStatus::Brake))
}

/// The motor driver after a command: only `Stop` calls it, once.
pub open spec fn command_motor<M: Motor>(m: M, cmd: MotorCommand) -> M {
    match cmd {
        MotorCommand::Stop => m.after_stop(),
        _ => m,
    }
}

/// The current sensor after a command.
pub open spec fn command_sensor<C: PowerSensor>(v: MotorControllerView, c: C, cmd: MotorCommand) -> C {
    match cmd {
        MotorCommand::SetSpeed(s) => set_speed_sensor(v, c, s@),
        MotorCommand::SetSpeedRpm(rpm) => set_speed_sensor(v, c, speed_for_rpm(rpm, v.limits.max_rpm)),
        MotorCommand::Stop => c.after_mode(PowerMeasurementMode::PowerDown),
    }
}

/// The records a command reports, in order.
pub open spec fn command_records<M: Motor, C: PowerSensor>(
    v: MotorControllerView,
    m: M,
    c: C,
    cmd: MotorCommand,
) -> Seq<TelemetryRecord> {
    match cmd {
        MotorCommand::SetSpeed(s) => set_speed_records(v, c, s@),
        MotorCommand::SetSpeedRpm(rpm) => {
            let s = speed_for_rpm(rpm, v.limits.max_rpm);
            set_speed_records(v, c, s).push(TelemetryRecord::Motor(status_of(after_set_speed(v, s))))
        },
        MotorCommand::Stop => stop_records(m, c),
    }
}

/// The next active speed when ramping one step from `active` towards `target`.
pub open spec fn ramp_towards(active: int, target: int) -> int {
    if active < target {
        active + 1
    } else if active > target {
        active - 1
    } else {
        active
    }
}

/// The state after one tick.
pub open spec fn tick_step(v: MotorControllerView) -> MotorControllerView {
    if v.state == MotorState::On {
        if v.active_speed != v.speed {
            let next = ramp_towards(v.active_speed, v.speed);
            if next == 0 && v.speed == 0 {
                MotorControllerView { state: MotorState::Off, active_speed: next, ..v }
            } else {
                MotorControllerView { active_speed: next, ..v }
            }
        } else {
            v
        }
    } else if v.active_speed != 0 {
        MotorControllerView { active_speed: ramp_towards(v.active_speed, 0), ..v }
    } else {
        v
    }
}

/// The driver call that one tick makes before ticking the driver.
pub open spec fn tick_call(v: MotorControllerView) -> TickCall {
    let next = tick_step(v).active_speed;
    if v.state == MotorState::On {
        if v.active_speed != v.speed {
            if next == 0 && v.speed == 0 {
                TickCall::StopAndPowerDown
            } else {
                TickCall::SetSpeed(next as i8)
            }
        } else {
            TickCall::NoCall
        }
    } else if v.active_speed != 0 {
        if next == 0 {
            TickCall::Stop
        } else {
            TickCall::SetSpeed(next as i8)
        }
    } else {
        TickCall::NoCall
    }
}

/// The driver ticked last, after driver calls that succeeded.
pub open spec fn then_tick<M: Tickable, C>(m: M, c: C) -> (M, C, Result<(), PeripheralError>) {
    (m.after_tick(), c, m.tick_result())
}

/// The motor driver, the current sensor and the result of one tick: the planned
/// driver call (at the new active speed), the sensor's power-down when a running
/// motor turns off, then the driver's tick. The first failing driver call ends
/// the tick with its error; the power-down's own result is not looked at.
pub open spec fn tick_devices<M: Motor + Tickable, C: PowerSensor>(
    v: MotorControllerView,
    m: M,
    c: C,
) -> (M, C, Result<(), PeripheralError>) {
    let next = speed_from(tick_step(v).active_speed);
    match tick_call(v) {
        TickCall::NoCall => then_tick(m, c),
        TickCall::SetSpeed(_) => if m.set_speed_result(next) is Err {
            (m.after_set_speed(next), c, m.set_speed_result(next))
        } else {
            then_tick(m.after_set_speed(next), c)
        },
        TickCall::Stop => if m.stop_result() is Err {
            (m.after_stop(), c, m.stop_result())
        } else {
            then_tick(m.after_stop(), c)
        },
        TickCall::StopAndPowerDown => if m.stop_result() is Err {
            (m.after_stop(), c, m.stop_result())
        } else {
            then_tick(m.after_stop(), c.after_mode(PowerMeasurementMode::PowerDown))
        },
    }
}

/// Every speed percentage of the state lies in `-100..=100`.
pub open spec fn speeds_in_range(v: MotorControllerView) -> bool {
    -100 <= v.speed <= 100 && -100 <= v.active_speed <= 100
}

/// Orchestrates a motor driver and a current sensor: ramps the speed, applies
/// commands and stops the motor when a safety limit is violated.
pub struct MotorController<M, C> {
    state: MotorState,
    /// The motor driver.
    pub motor: M,
    /// The current sensor.
    pub current_sensor: C,
    last_current_ma: i32,
    speed: MotorSpeed,
    active_speed: MotorSpeed,
    calibration_present: bool,
    limits: MotorLimits,
}

impl<M, C> MotorController<M, C> {
    /// The motor driver.
    pub closed spec fn motor_state(&self) -> M {
        self.motor
    }

    /// The current sensor.
    pub closed spec fn sensor_state(&self) -> C {
        self.current_sensor
    }
}

impl<M, C> View for MotorController<M, C> {
    type V = MotorControllerView;

    closed spec fn view(&self) -> MotorControllerView {
        MotorControllerView {
            state: self.state,
            last_current_ma: self.last_current_ma,
            speed: self.speed@,
            active_speed: self.active_speed@,
            calibration_present: self.calibration_present,
            limits: self.limits,
        }
    }
}


/// Offering nothing leaves an outbox as it was.
pub proof fn lemma_emit_none(v: ForwardingClientView)
    ensures
        emit(v, Seq::empty()) == v,
{
    assert(v.pending + Seq::<TelemetryRecord>::empty() =~= v.pending);
}

/// Offering one more record after `recs` is offering `recs` followed by it.
pub proof fn lemma_emit_push(v: ForwardingClientView, recs: Seq<TelemetryRecord>, rec: TelemetryRecord)
    ensures
        forwarded(emit(v, recs), rec) == emit(v, recs.push(rec)),
{
    assert((v.pending + recs).push(rec) =~= v.pending + recs.push(rec));
}

/// Offering the error of a call's result, if any.
pub proof fn lemma_emit_error(v: ForwardingClientView, recs: Seq<TelemetryRecord>, e: PeripheralError)
    ensures
        forwarded(emit(v, recs), TelemetryRecord::PeripheralError(e)) == emit(
            v,
            recs + error_records(Err(e)),
        ),
{
    lemma_emit_push(v, recs, TelemetryRecord::PeripheralError(e));
    assert(recs.push(TelemetryRecord::PeripheralError(e)) =~= recs + error_records(Err(e)));
}

/// A successful call adds no record.
pub proof fn lemma_emit_ok(v: ForwardingClientView, recs: Seq<TelemetryRecord>)
    ensures
        emit(v, recs) == emit(v, recs + error_records(Ok(()))),
{
    assert(recs + error_records(Ok(())) =~= recs);
}

impl<M: Motor + Tickable, C: PowerSensor> MotorController<M, C> {
    /// Creates a controller for `motor` and `current_sensor`, stopped and
    /// uncalibrated, with current limits 15..800 mA.
    pub fn new(motor: M, current_sensor: C) -> (r: Self)
        ensures
            r@ == (MotorControllerView {
                state: MotorState::Off,
                last_current_ma: 0,
                speed: 0,
                active_speed: 0,
                calibration_present: false,
                limits: MotorLimits { min_current_ma: 15, max_current_ma: 800, max_rpm: 0, rpm_limit: 0 },
            }),
            r.motor_state() == motor,
            r.sensor_state() == current_sensor,
    {
        MotorController {
            state: MotorState::Off,
            motor,
            current_sensor,
            last_current_ma: 0,
            speed: MotorSpeed::zero(),
            active_speed: MotorSpeed::zero(),
            calibration_present: false,
            limits: MotorLimits { min_current_ma: 15, max_current_ma: 800, max_rpm: 0, rpm_limit: 0 },
        }
    }

    /// The operating state.
    pub fn state(&self) -> (r: MotorState)
        ensures
            r == self@.state,
    {
        self.state
    }

    /// The dry-run current threshold in mA.
    pub fn min_current_ma(&self) -> (r: i32)
        ensures
            r == self@.limits.min_current_ma,
    {
        self.limits.min_current_ma
    }

    /// The stall current threshold in mA.
    pub fn max_current_ma(&self) -> (r: i32)
        ensures
            r == self@.limits.max_current_ma,
    {
        self.limits.max_current_ma
    }

    /// Sets the dry-run and stall current thresholds.
    pub fn set_current_limits(&mut self, min_ma: i32, max_ma: i32)
        ensures
            final(self)@ == (MotorControllerView {
                limits: MotorLimits { min_current_ma: min_ma, max_current_ma: max_ma, ..old(self)@.limits },
                ..old(self)@
            }),
    {
        self.limits.min_current_ma = min_ma;
        self.limits.max_current_ma = max_ma;
    }

    /// The estimated RPM: the active speed scaled by the calibrated maximum RPM,
    /// 0 when that maximum is not calibrated.
    pub fn current_rpm(&self) -> (r: u32)
        requires
            rpm_defined(self@),
        ensures
            r == spec_current_rpm(self@),
    {
        if self.limits.max_rpm == 0 {
            0
        } else {
            let a = self.active_speed.get();
            let au: u32 = if a >= 0 {
                a as u32
            } else {
                (a as i64 + 0x1_0000_0000i64) as u32
            };
            proof {
                assert(au as int == as_unsigned(self@.active_speed));
            }
            au * self.limits.max_rpm / 100
        }
    }

    /// The last measured current in mA.
    pub fn last_current_ma(&self) -> (r: i32)
        ensures
            r == self@.last_current_ma,
    {
        self.last_current_ma
    }

    /// Reads the current (a proxy for the load torque) from the sensor and keeps
    /// it as the last measured current.
    pub fn read_torque_ma(&mut self) -> (r: Result<i32, PeripheralError>)
        ensures
            r == old(self).sensor_state().current_result(),
            final(self).motor_state() == old(self).motor_state(),
            final(self).sensor_state() == old(self).sensor_state().after_read(),
            match r {
                Ok(c) => final(self)@ == MotorControllerView { last_current_ma: c, ..old(self)@ },
                Err(_) => final(self)@ == old(self)@,
            },
    {
        let current = self.current_sensor.read_current_ma()?;
        self.last_current_ma = current;
        Ok(current)
    }

    /// Applies a motor calibration: current limits, maximum RPM and RPM cut-off.
    /// The motor can only start once a calibration was applied.
    pub fn set_calibration(&mut self, calibration: CalibrationType)
        ensures
            match calibration {
                CalibrationType::MotorCal { current_limits, max_rpm, rpm_limit } => final(self)@
                    == MotorControllerView {
                    calibration_present: true,
                    limits: MotorLimits {
                        min_current_ma: current_limits.low,
                        max_current_ma: current_limits.high,
                        max_rpm,
                        rpm_limit,
                    },
                    ..old(self)@
                },
            },
    {
        match calibration {
            CalibrationType::MotorCal { current_limits, max_rpm, rpm_limit } => {
                self.calibration_present = true;
                self.limits.min_current_ma = current_limits.low;
                self.limits.max_current_ma = current_limits.high;
                self.limits.max_rpm = max_rpm;
                self.limits.rpm_limit = rpm_limit;
            },
        }
    }

    /// The current telemetry status.
    fn status(&self) -> (r: MotorStatus)
        ensures
            r == status_of(self@),
    {
        if self.state == MotorState::On {
            proof {
                MotorSpeed::lemma_speed_from(self.speed);
            }
            MotorStatus::Running(self.speed)
        } else {
            MotorStatus::Brake
        }
    }

    /// Handles `SetSpeed(speed)`, reporting the resulting status unless the motor
    /// cannot start for lack of calibration.
    fn handle_set_speed(&mut self, speed: MotorSpeed, telemetry_client: &mut MotorTelemetryClient)
        ensures
            final(self)@ == after_set_speed(old(self)@, speed@),
            final(self).motor_state() == old(self).motor_state(),
            final(self).sensor_state() == set_speed_sensor(old(self)@, old(self).sensor_state(), speed@),
            final(telemetry_client)@ == emit(
                old(telemetry_client)@,
                set_speed_records(old(self)@, old(self).sensor_state(), speed@),
            ),
    {
        let ghost v0 = self@;
        let ghost c0 = self.current_sensor;
        let ghost t0 = telemetry_client@;
        proof {
            lemma_emit_none(t0);
        }
        let s = speed.get();
        if s != 0 {
            if !self.calibration_present {
                self.speed = speed;
                return;
            }
            if self.state == MotorState::Off {
                self.state = MotorState::On;
                let res = self.current_sensor.set_measurement_mode(
                    PowerMeasurementMode::Continuous(true, true),
                );
                if let Err(e) = res {
                    proof {
                        lemma_emit_error(t0, Seq::empty(), e);
                    }
                    telemetry_client.report_error(e);
                } else {
                    proof {
                        lemma_emit_ok(t0, Seq::empty());
                    }
                }
            }
            self.speed = speed;
        } else {
            self.speed = MotorSpeed::zero();
        }
        let ghost errs = if starts_motor(v0, speed@) {
            error_records(c0.mode_result(continuous_mode()))
        } else {
            Seq::empty()
        };
        proof {
            assert(Seq::<TelemetryRecord>::empty() + errs =~= errs);
        }
        let st = self.status();
        proof {
            lemma_emit_push(t0, errs, TelemetryRecord::Motor(st));
        }
        telemetry_client.report(st);
    }

    /// The target speed for a signed RPM command.
    fn speed_for_rpm(&self, rpm: i32) -> (r: MotorSpeed)
        requires
            rpm_command_defined(rpm),
        ensures
            r@ == speed_for_rpm(rpm, self@.limits.max_rpm),
    {
        if self.limits.max_rpm == 0 {
            return MotorSpeed::zero();
        }
        let n: i64 = rpm as i64 * 100;
        let m: i64 = if self.limits.max_rpm <= i32::MAX as u32 {
            self.limits.max_rpm as i64
        } else {
            self.limits.max_rpm as i64 - 0x1_0000_0000i64
        };
        let an: i64 = if n < 0 {
            -n
        } else {
            n
        };
        let am: i64 = if m < 0 {
            -m
        } else {
            m
        };
        let mag: i64 = an / am;
        let q: i64 = if (n < 0) == (m < 0) {
            mag
        } else {
            -mag
        };
        let c: i64 = if q < -100 {
            -100
        } else if q > 100 {
            100
        } else {
            q
        };
        match MotorSpeed::new(c as i8) {
            Some(s) => s,
            None => MotorSpeed::zero(),
        }
    }

    /// Applies `cmd` and reports the resulting motor status. Starting the motor
    /// requires a calibration; an uncalibrated start only records the target speed,
    /// calls no device and reports nothing. Starting switches the current sensor to
    /// continuous measurement. `Stop` stops the driver at once and powers the
    /// current sensor down. A failing device call is reported as a peripheral
    /// error, in the order of the calls.
    pub fn handle_command(&mut self, cmd: MotorCommand, telemetry_client: &mut MotorTelemetryClient)
        requires
            cmd matches MotorCommand::SetSpeedRpm(rpm) ==> rpm_command_defined(rpm),
        ensures
            final(self)@ == command_step(old(self)@, cmd),
            final(self).motor_state() == command_motor(old(self).motor_state(), cmd),
            final(self).sensor_state() == command_sensor(old(self)@, old(self).sensor_state(), cmd),
            final(telemetry_client)@ == emit(
                old(telemetry_client)@,
                command_records(old(self)@, old(self).motor_state(), old(self).sensor_state(), cmd),
            ),
    {
        match cmd {
            MotorCommand::SetSpeed(speed) => {
                self.handle_set_speed(speed, telemetry_client);
            },
            MotorCommand::SetSpeedRpm(rpm) => {
                let ghost t0 = telemetry_client@;
                let ghost v0 = self@;
                let ghost c0 = self.current_sensor;
                let speed = self.speed_for_rpm(rpm);
                self.handle_set_speed(speed, telemetry_client);
                let st = self.status();
                proof {
                    lemma_emit_push(t0, set_speed_records(v0, c0, speed@), TelemetryRecord::Motor(st));
                }
                telemetry_client.report(st);
            },
            MotorCommand::Stop => {
                let ghost t0 = telemetry_client@;
                let ghost m0 = self.motor;
                let ghost c0 = self.current_sensor;
                proof {
                    lemma_emit_none(t0);
                }
                self.state = MotorState::Off;
                self.speed = MotorSpeed::zero();
                self.active_speed = MotorSpeed::zero();
                if let Err(e) = self.motor.stop() {
                    proof {
                        lemma_emit_error(t0, Seq::empty(), e);
                    }
                    telemetry_client.report_error(e);
                } else {
                    proof {
                        lemma_emit_ok(t0, Seq::empty());
                    }
                }
                let ghost e1 = Seq::<TelemetryRecord>::empty() + error_records(m0.stop_result());
                if let Err(e) = self.current_sensor.set_measurement_mode(
                    PowerMeasurementMode::PowerDown,
                ) {
                    proof {
                        lemma_emit_error(t0, e1, e);
                    }
                    telemetry_client.report_error(e);
                } else {
                    proof {
                        lemma_emit_ok(t0, e1);
                    }
                }
                let ghost e2 = e1 + error_records(c0.mode_result(PowerMeasurementMode::PowerDown));
                proof {
                    lemma_emit_push(t0, e2, TelemetryRecord::Motor(MotorStatus::Brake));
                    assert(e1 =~= error_records(m0.stop_result()));
                    assert(e2.push(TelemetryRecord::Motor(MotorStatus::Brake)) =~= stop_records(m0, c0));
                }
                telemetry_client.report(MotorStatus::Brake);
            },
        }
    }

    /// The state and driver call of the next tick.
    pub fn tick_plan(&self) -> (r: (MotorState, MotorSpeed, TickCall))
        ensures
            r.0 == tick_step(self@).state,
            r.1@ == tick_step(self@).active_speed,
            r.2 == tick_call(self@),
    {
        let a = self.active_speed.get();
        let t = self.speed.get();
        if self.state == MotorState::On {
            if a != t {
                let next: i8 = if a < t {
                    a + 1
                } else {
                    a - 1
                };
                let ns = match MotorSpeed::new(next) {
                    Some(s) => s,
                    None => self.active_speed,
                };
                if next == 0 && t == 0 {
                    (MotorState::Off, ns, TickCall::StopAndPowerDown)
                } else {
                    (MotorState::On, ns, TickCall::SetSpeed(next))
                }
            } else {
                (self.state, self.active_speed, TickCall::NoCall)
            }
        } else if a != 0 {
            let next: i8 = if a > 0 {
                a - 1
            } else {
                a + 1
            };
            let ns = match MotorSpeed::new(next) {
                Some(s) => s,
                None => self.active_speed,
            };
            if next == 0 {
                (self.state, ns, TickCall::Stop)
            } else {
                (self.state, ns, TickCall::SetSpeed(next))
            }
        } else {
            (self.state, self.active_speed, TickCall::NoCall)
        }
    }

    /// Advances the ramp by one step (called every 10 ms): the active speed moves
    /// one percent towards the target, the driver follows, and a motor that
    /// ramped down to a zero target turns off and powers its current sensor down.
    /// A stopped motor that still spins ramps down to zero. Then the driver is
    /// ticked. The state advances even when a driver call fails; the first failure
    /// ends the tick and is returned.
    pub fn tick_motor(&mut self) -> (r: Result<(), PeripheralError>)
        ensures
            final(self)@ == tick_step(old(self)@),
            ({
                let d = tick_devices(old(self)@, old(self).motor_state(), old(self).sensor_state());
                &&& final(self).motor_state() == d.0
                &&& final(self).sensor_state() == d.1
                &&& r == d.2
            }),
    {
        let (state, next, call) = self.tick_plan();
        proof {
            MotorSpeed::lemma_speed_from(next);
        }
        self.state = state;
        self.active_speed = next;
        match call {
            TickCall::NoCall => {},
            TickCall::SetSpeed(_) => {
                self.motor.set_speed(self.active_speed)?;
            },
            TickCall::Stop => {
                self.motor.stop()?;
            },
            TickCall::StopAndPowerDown => {
                self.motor.stop()?;
                let _ = self.current_sensor.set_measurement_mode(PowerMeasurementMode::PowerDown);
            },
        }
        self.motor.tick()?;
        Ok(())
    }

    /// The periodic safety check (once per second): while running, reads the
    /// current and stops the motor (as `Stop` does) when the RPM, dry-run or stall
    /// limit is violated; then reports the motor status. Fails exactly when the
    /// current cannot be read, and then reports nothing and changes nothing but
    /// the sensor's own reading.
    pub fn update(&mut self, telemetry_client: &mut MotorTelemetryClient) -> (r: Result<(), PeripheralError>)
        requires
            old(self)@.state == MotorState::On ==> rpm_defined(old(self)@),
        ensures
            old(self)@.state == MotorState::Off ==> {
                &&& r is Ok
                &&& final(self)@ == old(self)@
                &&& final(self).motor_state() == old(self).motor_state()
                &&& final(self).sensor_state() == old(self).sensor_state()
                &&& final(telemetry_client)@ == emit(
                    old(telemetry_client)@,
                    seq![TelemetryRecord::Motor(MotorStatus::Brake)],
                )
            },
            old(self)@.state == MotorState::On ==> {
                let m0 = old(self).motor_state();
                let c1 = old(self).sensor_state().after_read();
                match old(self).sensor_state().current_result() {
                    Err(e) => {
                        &&& r == Err::<(), PeripheralError>(e)
                        &&& final(self)@ == old(self)@
                        &&& final(self).motor_state() == m0
                        &&& final(self).sensor_state() == c1
                        &&& final(telemetry_client)@ == old(telemetry_client)@
                    },
                    Ok(current) => {
                        let measured = MotorControllerView { last_current_ma: current, ..old(self)@ };
                        &&& r is Ok
                        &&& if spec_check_limits(
                            old(self)@.limits,
                            spec_current_rpm(old(self)@),
                            current,
                        ) == MotorSafetyStatus::Safe {
                            &&& final(self)@ == measured
                            &&& final(self).motor_state() == m0
                            &&& final(self).sensor_state() == c1
                            &&& final(telemetry_client)@ == emit(
                                old(telemetry_client)@,
                                seq![TelemetryRecord::Motor(status_of(measured))],
                            )
                        } else {
                            &&& final(self)@ == stopped(measured)
                            &&& final(self).motor_state() == m0.after_stop()
                            &&& final(self).sensor_state() == c1.after_mode(
                                PowerMeasurementMode::PowerDown,
                            )
                            &&& final(telemetry_client)@ == emit(
                                old(telemetry_client)@,
                                stop_records(m0, c1).push(TelemetryRecord::Motor(MotorStatus::Brake)),
                            )
                        }
                    },
                }
            },
    {
        let ghost t0 = telemetry_client@;
        let ghost v0 = self@;
        let is_running = self.state == MotorState::On;
        let current = if is_running {
            self.read_torque_ma()?
        } else {
            0
        };
        let ghost v1 = self@;
        let ghost m1 = self.motor;
        let ghost c1 = self.current_sensor;
        let ghost mut recs: Seq<TelemetryRecord> = Seq::empty();
        proof {
            lemma_emit_none(t0);
        }
        if self.state == MotorState::On {
            let rpm = self.current_rpm();
            let status = self.limits.check_limits(rpm, current);
            match status {
                MotorSafetyStatus::Safe => {},
                _ => {
                    self.handle_command(MotorCommand::Stop, telemetry_client);
                    proof {
                        recs = stop_records(m1, c1);
                    }
                },
            }
        }
        let st = self.status();
        proof {
            lemma_emit_push(t0, recs, TelemetryRecord::Motor(st));
            assert(Seq::<TelemetryRecord>::empty().push(TelemetryRecord::Motor(st)) =~= seq![
                TelemetryRecord::Motor(st),
            ]);
        }
        telemetry_client.report(st);
        Ok(())
    }
}

/// Reads the motor current outside the control loop. Its implementations
/// promise that what a reading returns, and the reader afterwards, follow from
/// the reader before it; this contract is not proved here (the controller's own
/// implementation below is verified).
pub trait BlockingMotorReader: Sized {
    /// What reading the current returns.
    spec fn blocking_current_result(&self) -> Result<i32, PeripheralError>;

    /// The reader after a reading.
    spec fn after_blocking_read(&self) -> Self;

    /// Reads the motor current in mA.
    fn read_current_ma_blocking(&mut self) -> (r: Result<i32, PeripheralError>)
        ensures
            r == old(self).blocking_current_result(),
            *final(self) == old(self).after_blocking_read(),
    ;
}

/// Drives the motor outside the control loop. Its implementations promise that
/// what a call returns, and the writer afterwards, follow from the writer before
/// the call and the call's arguments; this contract is not proved here (the
/// controller's own implementation below is verified).
pub trait BlockingMotorWriter: Sized {
    /// What setting the speed percentage `speed` returns.
    spec fn motor_speed_result(&self, speed: i8) -> Result<(), PeripheralError>;

    /// The writer after setting the speed percentage `speed`.
    spec fn after_motor_speed(&self, speed: i8) -> Self;

    /// What stopping the motor returns.
    spec fn blocking_stop_result(&self) -> Result<(), PeripheralError>;

    /// The writer after stopping the motor.
    spec fn after_blocking_stop(&self) -> Self;

    /// Sets the motor speed percentage.
    fn set_motor_speed(&mut self, speed: i8) -> (r: Result<(), PeripheralError>)
        ensures
            r == old(self).motor_speed_result(speed),
            *final(self) == old(self).after_motor_speed(speed),
    ;

    /// Stops the motor.
    fn stop(&mut self) -> (r: Result<(), PeripheralError>)
        ensures
            r == old(self).blocking_stop_result(),
            *final(self) == old(self).after_blocking_stop(),
    ;
}

impl<M: Motor + Tickable, C: PowerSensor> BlockingMotorReader for MotorController<M, C> {
    /// The current sensor's reading.
    open spec fn blocking_current_result(&self) -> Result<i32, PeripheralError> {
        self.sensor_state().current_result()
    }

    /// The sensor after its reading; a successful reading is kept as the last
    /// measured current.
    closed spec fn after_blocking_read(&self) -> Self {
        MotorController {
            current_sensor: self.current_sensor.after_read(),
            last_current_ma: match self.current_sensor.current_result() {
                Ok(c) => c,
                Err(_) => self.last_current_ma,
            },
            ..*self
        }
    }

    fn read_current_ma_blocking(&mut self) -> (r: Result<i32, PeripheralError>)
        ensures
            final(self).motor_state() == old(self).motor_state(),
            final(self).sensor_state() == old(self).sensor_state().after_read(),
            match r {
                Ok(c) => final(self)@ == MotorControllerView { last_current_ma: c, ..old(self)@ },
                Err(_) => final(self)@ == old(self)@,
            },
    {
        let res = self.current_sensor.read_current_ma();
        if let Ok(c) = res {
            self.last_current_ma = c;
        }
        res
    }
}

/// Whether `speed` is a valid speed percentage.
pub open spec fn speed_in_range(speed: i8) -> bool {
    -100 <= speed <= 100
}

impl<M: Motor + Tickable, C: PowerSensor> BlockingMotorWriter for MotorController<M, C> {
    /// `InvalidConfiguration` outside `-100..=100`; otherwise `Ok`, whatever the
    /// driver answers.
    open spec fn motor_speed_result(&self, speed: i8) -> Result<(), PeripheralError> {
        if speed_in_range(speed) {
            Ok(())
        } else {
            Err(PeripheralError::InvalidConfiguration)
        }
    }

    /// The driver driven at `speed` when it is a valid percentage.
    closed spec fn after_motor_speed(&self, speed: i8) -> Self {
        if speed_in_range(speed) {
            MotorController { motor: self.motor.after_set_speed(speed_from(speed as int)), ..*self }
        } else {
            *self
        }
    }

    /// `Ok`, whatever the driver answers.
    open spec fn blocking_stop_result(&self) -> Result<(), PeripheralError> {
        Ok(())
    }

    /// The driver stopped.
    closed spec fn after_blocking_stop(&self) -> Self {
        MotorController { motor: self.motor.after_stop(), ..*self }
    }

    /// Drives the motor directly at `speed`; fails with `InvalidConfiguration`
    /// when `speed` lies outside `-100..=100`. Driver errors are ignored.
    fn set_motor_speed(&mut self, speed: i8) -> (r: Result<(), PeripheralError>)
        ensures
            final(self)@ == old(self)@,
            final(self).sensor_state() == old(self).sensor_state(),
            final(self).motor_state() == if speed_in_range(speed) {
                old(self).motor_state().after_set_speed(speed_from(speed as int))
            } else {
                old(self).motor_state()
            },
    {
        let motor_speed = match MotorSpeed::new(speed) {
            Some(s) => s,
            None => return Err(PeripheralError::InvalidConfiguration),
        };
        proof {
            MotorSpeed::lemma_speed_from(motor_speed);
        }
        let _ = self.motor.set_speed(motor_speed);
        Ok(())
    }

    /// Stops the motor directly; driver errors are ignored.
    fn stop(&mut self) -> (r: Result<(), PeripheralError>)
        ensures
            final(self)@ == old(self)@,
            final(self).motor_state() == old(self).motor_state().after_stop(),
            final(self).sensor_state() == old(self).sensor_state(),
    {
        let _ = self.motor.stop();
        Ok(())
    }
}

/// Reference points of a four-point calibration.
#[derive(Clone, Copy, PartialEq, Eq, Structural, Debug)]
pub enum FourPointRef {
    /// Lowest load.
    Low,
    /// Middle load.
    Mid,
    /// High load.
    High,
    /// Overload.
    Overload,
}

/// Motor calibration targets, named after the water bowl's fill.
#[derive(Clone, Copy, PartialEq, Eq, Structural, Debug)]
pub enum MotorCalState {
    /// Empty water bowl.
    Empty,
    /// Bowl with 100 ml of water.
    Water100ml,
    /// Full water bowl.
    Full,
    /// Overload / stall.
    Overload,
}

/// The calibration reference point of a calibration target.
pub open spec fn spec_ref_of(state: MotorCalState) -> FourPointRef {
    match state {
        MotorCalState::Empty => FourPointRef::Low,
        MotorCalState::Water100ml => FourPointRef::Mid,
        MotorCalState::Full => FourPointRef::High,
        MotorCalState::Overload => FourPointRef::Overload,
    }
}

impl From<MotorCalState> for FourPointRef {
    fn from(state: MotorCalState) -> (r: Self) {
        match state {
            MotorCalState::Empty => FourPointRef::Low,
            MotorCalState::Water100ml => FourPointRef::Mid,
            MotorCalState::Full => FourPointRef::High,
            MotorCalState::Overload => FourPointRef::Overload,
        }
    }
}

impl vstd::std_specs::convert::FromSpecImpl<MotorCalState> for FourPointRef {
    open spec fn obeys_from_spec() -> bool {
        true
    }

    open spec fn from_spec(v: MotorCalState) -> FourPointRef {
        spec_ref_of(v)
    }
}

/// The calibration target named by a command-line argument.
pub open spec fn spec_cal_state_arg(arg: Seq<char>) -> Option<MotorCalState> {
    if arg == "empty"@ {
        Some(MotorCalState::Empty)
    } else if arg == "100ml"@ {
        Some(MotorCalState::Water100ml)
    } else if arg == "full"@ {
        Some(MotorCalState::Full)
    } else if arg == "overload"@ {
        Some(MotorCalState::Overload)
    } else {
        None
    }
}

impl MotorCalState {
    /// Reads a calibration target from `empty`, `100ml`, `full` or `overload`;
    /// otherwise fails with a message naming the accepted values.
    pub fn from_arg(arg: &str) -> (r: Result<MotorCalState, &'static str>)
        ensures
            match spec_cal_state_arg(arg@) {
                Some(st) => r == Ok::<MotorCalState, &'static str>(st),
                None => r matches Err(e) && e@ == "one of 'empty', '100ml', 'full', or 'overload'"@,
            },
    {
        if str_eq(arg, "empty") {
            Ok(MotorCalState::Empty)
        } else if str_eq(arg, "100ml") {
            Ok(MotorCalState::Water100ml)
        } else if str_eq(arg, "full") {
            Ok(MotorCalState::Full)
        } else if str_eq(arg, "overload") {
            Ok(MotorCalState::Overload)
        } else {
            Err("one of 'empty', '100ml', 'full', or 'overload'")
        }
    }

    /// Display name of the target, as used in calibration messages.
    pub fn name(&self) -> (r: &'static str)
        ensures
            r@ == match self {
                MotorCalState::Empty => "Empty"@,
                MotorCalState::Water100ml => "100ml"@,
                MotorCalState::Full => "Full"@,
                MotorCalState::Overload => "Overload"@,
            },
    {
        match self {
            MotorCalState::Empty => "Empty",
            MotorCalState::Water100ml => "100ml",
            MotorCalState::Full => "Full",
            MotorCalState::Overload => "Overload",
        }
    }
}

/// Motor commands of the command line.
#[derive(Clone, Copy, PartialEq, Eq, Structural, Debug)]
pub enum MotorCliCommand {
    /// `motor speed <speed>`: drive at a percentage in `-100..=100`.
    Speed {
        /// Target speed percentage.
        speed: i8,
    },
    /// `motor stop`.
    Stop,
    /// `motor calibrate <state> [max_rpm] [rpm_limit]`.
    Calibrate {
        /// Calibration target.
        state: MotorCalState,
        /// Physical maximum RPM at 100% duty cycle.
        max_rpm: Option<u32>,
        /// RPM safety limit.
        rpm_limit: Option<u32>,
    },
}

/// The characters of an optional argument.
pub open spec fn opt_chars(a: Option<&str>) -> Option<Seq<char>> {
    match a {
        Some(s) => Some(s@),
        None => None,
    }
}

/// An optional `u32` argument; one that does not parse counts as absent.
pub open spec fn spec_opt_u32(a: Option<Seq<char>>) -> Option<u32> {
    match a {
        Some(s) => match spec_parse_unsigned(s, u32::MAX as int) {
            Some(v) => Some(v as u32),
            None => None,
        },
        None => None,
    }
}

/// The calibration target named on the motor command line.
pub open spec fn spec_cli_cal_state(arg: Seq<char>) -> Option<MotorCalState> {
    if arg == "empty"@ {
        Some(MotorCalState::Empty)
    } else if arg == "water_100ml"@ {
        Some(MotorCalState::Water100ml)
    } else if arg == "full"@ {
        Some(MotorCalState::Full)
    } else if arg == "overload"@ {
        Some(MotorCalState::Overload)
    } else {
        None
    }
}

/// The motor command (or error message) of a command line's words.
pub open spec fn spec_motor_cli(
    sub: Option<Seq<char>>,
    a1: Option<Seq<char>>,
    a2: Option<Seq<char>>,
    a3: Option<Seq<char>>,
) -> Result<MotorCliCommand, Seq<char>> {
    if sub == Some("speed"@) {
        match a1 {
            None => Err("Missing speed parameter"@),
            Some(x) => match spec_parse_signed(x, i8::MIN as int, i8::MAX as int) {
                Some(v) => Ok(MotorCliCommand::Speed { speed: v as i8 }),
                None => Err("Invalid speed parameter"@),
            },
        }
    } else if sub == Some("stop"@) {
        Ok(MotorCliCommand::Stop)
    } else if sub == Some("calibrate"@) {
        match a1 {
            None => Err("Missing calibration state"@),
            Some(x) => match spec_cli_cal_state(x) {
                Some(st) => Ok(
                    MotorCliCommand::Calibrate {
                        state: st,
                        max_rpm: spec_opt_u32(a2),
                        rpm_limit: spec_opt_u32(a3),
                    },
                ),
                None => Err(
                    "Invalid calibration state. Expected: empty, water_100ml, full, overload"@,
                ),
            },
        }
    } else {
        Err("Invalid motor subcommand. Expected: speed, stop, calibrate"@)
    }
}

/// Whether an optional argument equals `word`.
fn arg_is(a: Option<&str>, word: &str) -> (r: bool)
    ensures
        r == (opt_chars(a) == Some(word@)),
{
    match a {
        Some(s) => str_eq(s, word),
        None => false,
    }
}

/// Reads an optional `u32` argument; one that does not parse counts as absent.
fn opt_u32(a: Option<&str>) -> (r: Option<u32>)
    ensures
        r == spec_opt_u32(opt_chars(a)),
{
    match a {
        Some(s) => parse_u32(s),
        None => None,
    }
}

/// Reads the words of a `motor` command line: `speed <speed>`, `stop`, or
/// `calibrate <empty|water_100ml|full|overload> [max_rpm] [rpm_limit]`.
pub fn parse_motor_cli(
    subcommand: Option<&str>,
    arg1: Option<&str>,
    arg2: Option<&str>,
    arg3: Option<&str>,
) -> (r: Result<MotorCliCommand, &'static str>)
    ensures
        match spec_motor_cli(opt_chars(subcommand), opt_chars(arg1), opt_chars(arg2), opt_chars(arg3)) {
            Ok(c) => r == Ok::<MotorCliCommand, &'static str>(c),
            Err(m) => r matches Err(e) && e@ == m,
        },
{
    if arg_is(subcommand, "speed") {
        let speed_str = match arg1 {
            Some(s) => s,
            None => return Err("Missing speed parameter"),
        };
        match parse_i8(speed_str) {
            Some(speed) => Ok(MotorCliCommand::Speed { speed }),
            None => Err("Invalid speed parameter"),
        }
    } else if arg_is(subcommand, "stop") {
        Ok(MotorCliCommand::Stop)
    } else if arg_is(subcommand, "calibrate") {
        let state_str = match arg1 {
            Some(s) => s,
            None => return Err("Missing calibration state"),
        };
        let state = if str_eq(state_str, "empty") {
            MotorCalState::Empty
        } else if str_eq(state_str, "water_100ml") {
            MotorCalState::Water100ml
        } else if str_eq(state_str, "full") {
            MotorCalState::Full
        } else if str_eq(state_str, "overload") {
            MotorCalState::Overload
        } else {
            return Err("Invalid calibration state. Expected: empty, water_100ml, full, overload");
        };
        Ok(MotorCliCommand::Calibrate { state, max_rpm: opt_u32(arg2), rpm_limit: opt_u32(arg3) })
    } else {
        Err("Invalid motor subcommand. Expected: speed, stop, calibrate")
    }
}

/// What a motor command line asks of the caller after the controller's part ran.
#[derive(Clone, Copy, PartialEq, Eq, Structural, Debug)]
pub enum MotorCliOutcome {
    /// The speed was set; the motor draws the given current (mA).
    Current(i32),
    /// The motor was stopped.
    Stopped,
    /// A calibration measurement of the given target is to be taken and saved.
    Calibrate {
        /// Calibration target.
        state: MotorCalState,
        /// Physical maximum RPM at 100% duty cycle to save.
        max_rpm: Option<u32>,
        /// RPM safety limit to save.
        rpm_limit: Option<u32>,
    },
}

/// Runs the controller side of a motor command: `speed` sets the speed and then
/// reads the current, `stop` stops the motor, `calibrate` needs the motor
/// peripheral and is then handed back to the caller, which measures and stores
/// the calibration. Each error comes exactly when its call fails, and ends the
/// command.
pub fn process_motor_command<T: BlockingMotorReader + BlockingMotorWriter>(
    motor_ctrl: &mut T,
    motor_available: bool,
    cmd: MotorCliCommand,
) -> (r: Result<MotorCliOutcome, &'static str>)
    ensures
        match cmd {
            MotorCliCommand::Speed { speed } => {
                let t0 = *old(motor_ctrl);
                let t1 = t0.after_motor_speed(speed);
                if t0.motor_speed_result(speed) is Err {
                    &&& r matches Err(e) && e@ == "Failed to set motor speed"@
                    &&& *final(motor_ctrl) == t1
                } else {
                    &&& *final(motor_ctrl) == t1.after_blocking_read()
                    &&& match t1.blocking_current_result() {
                        Ok(c) => r == Ok::<MotorCliOutcome, &'static str>(MotorCliOutcome::Current(c)),
                        Err(_) => r matches Err(e) && e@ == "Failed to read motor current"@,
                    }
                }
            },
            MotorCliCommand::Stop => {
                &&& *final(motor_ctrl) == old(motor_ctrl).after_blocking_stop()
                &&& if old(motor_ctrl).blocking_stop_result() is Ok {
                    r == Ok::<MotorCliOutcome, &'static str>(MotorCliOutcome::Stopped)
                } else {
                    r matches Err(e) && e@ == "Failed to stop motor"@
                }
            },
            MotorCliCommand::Calibrate { state, max_rpm, rpm_limit } => {
                &&& *final(motor_ctrl) == *old(motor_ctrl)
                &&& if motor_available {
                    r == Ok::<MotorCliOutcome, &'static str>(
                        MotorCliOutcome::Calibrate { state, max_rpm, rpm_limit },
                    )
                } else {
                    r matches Err(e) && e@ == "Motor peripheral not available"@
                }
            },
        },
{
    match cmd {
        MotorCliCommand::Speed { speed } => {
            if motor_ctrl.set_motor_speed(speed).is_err() {
                return Err("Failed to set motor speed");
            }
            match motor_ctrl.read_current_ma_blocking() {
                Ok(current) => Ok(MotorCliOutcome::Current(current)),
                Err(_) => Err("Failed to read motor current"),
            }
        },
        MotorCliCommand::Stop => match motor_ctrl.stop() {
            Ok(()) => Ok(MotorCliOutcome::Stopped),
            Err(_) => Err("Failed to stop motor"),
        },
        MotorCliCommand::Calibrate { state, max_rpm, rpm_limit } => {
            if !motor_available {
                return Err("Motor peripheral not available");
            }
            Ok(MotorCliOutcome::Calibrate { state, max_rpm, rpm_limit })
        },
    }
}

/// The stored motor calibration: the current (mA) measured at each reference
/// load, and the RPM figures.
#[derive(Clone, Copy, PartialEq, Eq, Structural, Debug)]
pub struct MotorCalibration {
    /// Current with an empty bowl.
    pub low_ma: i32,
    /// Current with 100 ml of water.
    pub mid_ma: i32,
    /// Current with a full bowl.
    pub high_ma: i32,
    /// Current when overloaded.
    pub overload_ma: i32,
    /// Physical RPM at 100% duty cycle.
    pub max_rpm: Option<u32>,
    /// RPM safety limit.
    pub rpm_limit: Option<u32>,
}

/// The current of the reference point `p`.
pub open spec fn cal_current_of(c: MotorCalibration, p: FourPointRef) -> i32 {
    match p {
        FourPointRef::Low => c.low_ma,
        FourPointRef::Mid => c.mid_ma,
        FourPointRef::High => c.high_ma,
        FourPointRef::Overload => c.overload_ma,
    }
}

impl MotorCalibration {
    /// The calibration used when none is stored: no currents, no RPM figures.
    pub fn empty() -> (r: Self)
        ensures
            r == (MotorCalibration {
                low_ma: 0,
                mid_ma: 0,
                high_ma: 0,
                overload_ma: 0,
                max_rpm: None,
                rpm_limit: None,
            }),
    {
        MotorCalibration { low_ma: 0, mid_ma: 0, high_ma: 0, overload_ma: 0, max_rpm: None, rpm_limit: None }
    }

    /// Records a calibration measurement: the current of the target's reference
    /// point, and each RPM figure that was given; nothing else changes.
    pub fn record(self, state: MotorCalState, current_ma: i32, max_rpm: Option<u32>, rpm_limit: Option<u32>) -> (r: Self)
        ensures
            cal_current_of(r, spec_ref_of(state)) == current_ma,
            forall|p: FourPointRef| p != spec_ref_of(state) ==> cal_current_of(r, p) == cal_current_of(self, p),
            r.max_rpm == (if max_rpm is Some {
                max_rpm
            } else {
                self.max_rpm
            }),
            r.rpm_limit == (if rpm_limit is Some {
                rpm_limit
            } else {
                self.rpm_limit
            }),
    {
        let mut c = self;
        match state {
            MotorCalState::Empty => c.low_ma = current_ma,
            MotorCalState::Water100ml => c.mid_ma = current_ma,
            MotorCalState::Full => c.high_ma = current_ma,
            MotorCalState::Overload => c.overload_ma = current_ma,
        }
        if max_rpm.is_some() {
            c.max_rpm = max_rpm;
        }
        if rpm_limit.is_some() {
            c.rpm_limit = rpm_limit;
        }
        c
    }
}

/// Sum of the calibration samples.
pub open spec fn samples_sum(s: Seq<i32>) -> int
    decreases s.len(),
{
    if s.len() == 0 {
        0
    } else {
        samples_sum(s.drop_last()) + s.last()
    }
}

/// Number of current samples averaged by a calibration.
pub const CALIBRATION_SAMPLES: usize = 5;

/// The calibration current: the mean of the five samples, truncated towards
/// zero as integer division does.
pub fn calibration_average(samples: &[i32; CALIBRATION_SAMPLES]) -> (r: i32)
    requires
        forall|k: int|
            0 <= k <= CALIBRATION_SAMPLES ==> i32::MIN <= #[trigger] samples_sum(samples@.take(k))
                <= i32::MAX,
    ensures
        r == trunc_div(samples_sum(samples@), CALIBRATION_SAMPLES as int),
{
    let mut sum: i32 = 0;
    let mut i: usize = 0;
    while i < CALIBRATION_SAMPLES
        invariant
            i <= CALIBRATION_SAMPLES,
            samples@.len() == CALIBRATION_SAMPLES,
            forall|k: int|
                0 <= k <= CALIBRATION_SAMPLES ==> i32::MIN <= #[trigger] samples_sum(samples@.take(k))
                    <= i32::MAX,
            sum == samples_sum(samples@.take(i as int)),
        decreases CALIBRATION_SAMPLES - i,
    {
        proof {
            assert(samples@.take(i as int + 1).drop_last() =~= samples@.take(i as int));
            assert(i32::MIN <= samples_sum(samples@.take(i as int + 1)) <= i32::MAX);
        }
        sum = sum + samples[i];
        i = i + 1;
    }
    proof {
        assert(samples@.take(CALIBRATION_SAMPLES as int) =~= samples@);
    }
    let mag: i32 = if sum < 0 {
        (-(sum as i64) / 5) as i32
    } else {
        sum / 5
    };
    if sum < 0 {
        -mag
    } else {
        mag
    }
}

/// The motor's part in reacting to a system state change.
pub struct MotorFeatureConfig {
    /// Whether a motor controller listens for commands.
    pub motor_enabled: bool,
    /// Speed the motor runs at while the system supports it.
    pub max_speed: MotorSpeed,
}

impl MotorFeatureConfig {
    /// Creates the feature.
    pub fn new(motor_enabled: bool, max_speed: MotorSpeed) -> (r: Self)
        ensures
            r.motor_enabled == motor_enabled,
            r.max_speed == max_speed,
    {
        MotorFeatureConfig { motor_enabled, max_speed }
    }

    /// The command for the motor after a state change: run at the configured
    /// speed while the new state supports the motor, stop otherwise; nothing when
    /// no motor controller listens.
    pub fn on_state_changed(&self, support: DeviceSupport) -> (r: Option<MotorCommand>)
        ensures
            r == (if !self.motor_enabled {
                None
            } else if support.motor {
                Some(MotorCommand::SetSpeed(self.max_speed))
            } else {
                Some(MotorCommand::Stop)
            }),
    {
        if self.motor_enabled {
            if support.motor {
                Some(MotorCommand::SetSpeed(self.max_speed))
            } else {
                Some(MotorCommand::Stop)
            }
        } else {
            None
        }
    }
}

/// The state after `n` ticks.
pub open spec fn ticks(v: MotorControllerView, n: nat) -> MotorControllerView
    decreases n,
{
    if n == 0 {
        v
    } else {
        ticks(tick_step(v), (n - 1) as nat)
    }
}

/// The estimated RPM is proportional to the active speed: at a forward speed
/// of `s` percent it is `s * max_rpm / 100` (rounded down), so 0 at a standstill
/// and the calibrated maximum only at full speed; it never decreases as the
/// speed rises, and the RPM cut-off stops a motor exactly when that estimate
/// exceeds the limit. Without a calibrated maximum it is 0.
pub proof fn lemma_rpm_proportional(v: MotorControllerView, w: MotorControllerView)
    requires
        0 <= v.active_speed <= 100,
        0 <= w.active_speed <= 100,
        w.limits == v.limits,
        rpm_defined(v),
        rpm_defined(w),
    ensures
        v.limits.max_rpm == 0 ==> spec_current_rpm(v) == 0,
        v.limits.max_rpm > 0 ==> spec_current_rpm(v) as int == v.active_speed * v.limits.max_rpm / 100,
        v.active_speed == 0 ==> spec_current_rpm(v) == 0,
        v.active_speed == 100 ==> spec_current_rpm(v) == v.limits.max_rpm,
        v.active_speed <= w.active_speed ==> spec_current_rpm(v) <= spec_current_rpm(w),
        (spec_check_limits(v.limits, spec_current_rpm(v), v.last_current_ma) is RpmExceeded) == (
        v.limits.rpm_limit > 0 && v.active_speed * v.limits.max_rpm / 100 > v.limits.rpm_limit),
{
    let m = v.limits.max_rpm as int;
    let a = v.active_speed;
    let b = w.active_speed;
    if m > 0 {
        assert(0 <= a * m) by (nonlinear_arith)
            requires
                0 <= a,
                0 <= m,
        ;
        assert(a * m <= u32::MAX);
        assert(0 <= a * m / 100 <= a * m) by (nonlinear_arith)
            requires
                0 <= a * m,
        ;
        assert(0 <= b * m) by (nonlinear_arith)
            requires
                0 <= b,
                0 <= m,
        ;
        assert(0 <= b * m / 100 <= b * m) by (nonlinear_arith)
            requires
                0 <= b * m,
        ;
        if a <= b {
            assert(a * m <= b * m) by (nonlinear_arith)
                requires
                    a <= b,
                    0 <= m,
            ;
            assert(a * m / 100 <= b * m / 100) by (nonlinear_arith)
                requires
                    a * m <= b * m,
            ;
        }
        if a == 100 {
            assert(100 * m / 100 == m) by (nonlinear_arith);
        }
        if a == 0 {
            assert(0 * m == 0) by (nonlinear_arith);
        }
    } else {
        assert(a * m == 0) by (nonlinear_arith)
            requires
                m == 0,
        ;
    }
}

/// A speed set in RPM is the RPM as a percentage of the calibrated maximum,
/// rounded towards zero and kept to `-100..=100`, with the sign of the RPM: 0 at
/// 0 RPM or without a calibrated maximum, 100% at the maximum, and larger RPMs
/// give larger (or equal) percentages.
pub proof fn lemma_speed_for_rpm(rpm: i32, rpm2: i32, max_rpm: u32)
    requires
        0 < max_rpm <= i32::MAX,
        rpm_command_defined(rpm),
        rpm_command_defined(rpm2),
    ensures
        speed_for_rpm(rpm, 0) == 0,
        -100 <= speed_for_rpm(rpm, max_rpm) <= 100,
        speed_for_rpm(0, max_rpm) == 0,
        rpm >= 0 ==> speed_for_rpm(rpm, max_rpm) == (if rpm * 100 / (max_rpm as int) > 100 {
            100
        } else {
            rpm * 100 / (max_rpm as int)
        }),
        rpm < 0 ==> speed_for_rpm(rpm, max_rpm) == (if (-rpm) * 100 / (max_rpm as int) > 100 {
            -100
        } else {
            -((-rpm) * 100 / (max_rpm as int))
        }),
        rpm as int == max_rpm as int ==> speed_for_rpm(rpm, max_rpm) == 100,
        rpm <= rpm2 ==> speed_for_rpm(rpm, max_rpm) <= speed_for_rpm(rpm2, max_rpm),
{
    let m = max_rpm as int;
    assert(as_signed(max_rpm) == m);
    if rpm as int == m {
        assert(m * 100 / m == 100) by (nonlinear_arith)
            requires
                m > 0,
        ;
    }
    if rpm <= rpm2 {
        let a = rpm * 100;
        let b = rpm2 * 100;
        if a >= 0 {
            assert(a / m <= b / m) by (nonlinear_arith)
                requires
                    0 <= a <= b,
                    m > 0,
            ;
        } else if b >= 0 {
            assert(0 <= b / m) by (nonlinear_arith)
                requires
                    0 <= b,
                    m > 0,
            ;
            assert(0 <= (-a) / m) by (nonlinear_arith)
                requires
                    0 < -a,
                    m > 0,
            ;
        } else {
            assert((-b) / m <= (-a) / m) by (nonlinear_arith)
                requires
                    0 < -b <= -a,
                    m > 0,
            ;
        }
    }
}

/// The safety check flags exactly the states where the RPM exceeds an enabled
/// cut-off or the current lies outside the calibrated window.
pub proof fn lemma_check_limits_flags_violations(l: MotorLimits, rpm: u32, current_ma: i32)
    ensures
        spec_check_limits(l, rpm, current_ma) == MotorSafetyStatus::Safe <==> !(l.rpm_limit > 0
            && rpm > l.rpm_limit) && l.min_current_ma <= current_ma <= l.max_current_ma,
{
}

/// One tick moves the active speed by at most one percent and changes neither
/// the target, the limits nor the calibration.
pub proof fn lemma_tick_is_gradual(v: MotorControllerView)
    ensures
        abs(tick_step(v).active_speed - v.active_speed) <= 1,
        tick_step(v).speed == v.speed,
        tick_step(v).limits == v.limits,
        tick_step(v).calibration_present == v.calibration_present,
        tick_step(v).last_current_ma == v.last_current_ma,
{
}

/// A running motor with a non-zero target reaches it after as many ticks as the
/// two speeds differ in percent, and keeps running.
pub proof fn lemma_ramp_reaches_target(v: MotorControllerView, n: nat)
    requires
        v.state == MotorState::On,
        v.speed != 0,
        n == abs(v.speed - v.active_speed),
    ensures
        ticks(v, n).state == MotorState::On,
        ticks(v, n).active_speed == v.speed,
        ticks(v, n).speed == v.speed,
    decreases n,
{
    if n > 0 {
        lemma_ramp_reaches_target(tick_step(v), (n - 1) as nat);
    }
}

/// A running motor whose target is zero ramps down and turns off after as many
/// ticks as its active speed in percent.
pub proof fn lemma_ramp_to_zero_turns_off(v: MotorControllerView, n: nat)
    requires
        v.state == MotorState::On,
        v.speed == 0,
        v.active_speed != 0,
        n == abs(v.active_speed),
    ensures
        ticks(v, n).state == MotorState::Off,
        ticks(v, n).active_speed == 0,
    decreases n,
{
    if n > 1 {
        lemma_ramp_to_zero_turns_off(tick_step(v), (n - 1) as nat);
    } else {
        assert(ticks(tick_step(v), 0) == tick_step(v));
    }
}

/// A motor that is off spins down to zero after as many ticks as its active
/// speed in percent, and stays off meanwhile.
pub proof fn lemma_off_spins_down(v: MotorControllerView, n: nat)
    requires
        v.state == MotorState::Off,
        n == abs(v.active_speed),
    ensures
        ticks(v, n).state == MotorState::Off,
        ticks(v, n).active_speed == 0,
    decreases n,
{
    if n > 0 {
        lemma_off_spins_down(tick_step(v), (n - 1) as nat);
    }
}

/// Ticks never start a motor that is off.
pub proof fn lemma_tick_never_starts(v: MotorControllerView)
    requires
        v.state == MotorState::Off,
    ensures
        tick_step(v).state == MotorState::Off,
{
}

/// Without a calibration, no command starts a motor that is off.
pub proof fn lemma_uncalibrated_never_starts(v: MotorControllerView, cmd: MotorCommand)
    requires
        v.state == MotorState::Off,
        !v.calibration_present,
    ensures
        command_step(v, cmd).state == MotorState::Off,
        command_step(v, cmd).active_speed == v.active_speed || command_step(v, cmd).active_speed
            == 0,
{
}

/// `Stop` halts the motor at once: off, with zero target and active speed; it
/// stops the driver once, powers the current sensor down once, and reports
/// `Brake` last, after at most one error for each of those two calls.
pub proof fn lemma_stop_halts<M: Motor, C: PowerSensor>(v: MotorControllerView, m: M, c: C)
    ensures
        command_step(v, MotorCommand::Stop).state == MotorState::Off,
        command_step(v, MotorCommand::Stop).speed == 0,
        command_step(v, MotorCommand::Stop).active_speed == 0,
        command_motor(m, MotorCommand::Stop) == m.after_stop(),
        command_sensor(v, c, MotorCommand::Stop) == c.after_mode(PowerMeasurementMode::PowerDown),
        command_records(v, m, c, MotorCommand::Stop).last() == TelemetryRecord::Motor(MotorStatus::Brake),
        1 <= command_records(v, m, c, MotorCommand::Stop).len() <= 3,
{
}

/// Without a calibration, a command to start the motor calls no device and
/// reports nothing.
pub proof fn lemma_uncalibrated_start_is_silent<M: Motor, C: PowerSensor>(
    v: MotorControllerView,
    m: M,
    c: C,
    s: MotorSpeed,
)
    requires
        !v.calibration_present,
        s@ != 0,
    ensures
        command_step(v, MotorCommand::SetSpeed(s)).state == v.state,
        command_motor(m, MotorCommand::SetSpeed(s)) == m,
        command_sensor(v, c, MotorCommand::SetSpeed(s)) == c,
        command_records(v, m, c, MotorCommand::SetSpeed(s)) == Seq::<TelemetryRecord>::empty(),
{
}

/// A calibrated motor starts on any non-zero target speed.
pub proof fn lemma_calibrated_starts(v: MotorControllerView, s: MotorSpeed)
    requires
        v.calibration_present,
        s@ != 0,
    ensures
        command_step(v, MotorCommand::SetSpeed(s)).state == MotorState::On,
        command_step(v, MotorCommand::SetSpeed(s)).speed == s@,
{
}

} // verus!
