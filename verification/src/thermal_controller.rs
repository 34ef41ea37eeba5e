//! Thermal supervision: overheating hysteresis, critical-temperature alerts and
//! the thermal boot trap.

use crate::model::{PeriodicInterval, PeripheralError};
use crate::parse::str_eq;
use crate::telemetry_controller::{ThermalTelemetryClient, thermal_report_defined};
use crate::types::{DeviceSupport, ThermalState, ThermalUpdateAction};
use vstd::prelude::*;

verus! {

/// Temperature reported when the sensor cannot be read (25 degrees Celsius).
pub const SAFE_TEMP_MILLI_C: i32 = 25000;

/// The abstract state of a [`ThermalController`].
pub struct ThermalControllerView {
    /// Whether thermal actions are sent to the system controller.
    pub has_thermal_tx: bool,
    /// Current thermal state.
    pub state: ThermalState,
    /// Overheating threshold (milli-Celsius).
    pub overheating_temp_milli_c: i32,
    /// Critical threshold (milli-Celsius).
    pub critical_temp_milli_c: i32,
    /// Hysteresis below the overheating threshold (milli-Celsius).
    pub hysteresis_temp_milli_c: i32,
    /// Whether the boot trap still has to be cleared.
    pub first_update: bool,
}

/// The result of one thermal update.
#[derive(Clone, Copy, Debug)]
pub struct ThermalUpdate {
    /// The action to send to the system controller, if any.
    pub send: Option<ThermalUpdateAction>,
    /// The reading error, if the sensor could not be read.
    pub result: Result<(), PeripheralError>,
}

/// The thermal state after a valid reading, with hysteresis: overheating starts
/// above the threshold and ends below the threshold minus the hysteresis.
pub open spec fn next_thermal_state(v: ThermalControllerView, temp: i32) -> ThermalState {
    match v.state {
        ThermalState::Normal => if temp > v.overheating_temp_milli_c {
            ThermalState::Overheating
        } else {
            ThermalState::Normal
        },
        ThermalState::Overheating => if temp < v.overheating_temp_milli_c - v.hysteresis_temp_milli_c {
            ThermalState::Normal
        } else {
            ThermalState::Overheating
        },
    }
}

/// The action sent after a reading: an alert above the critical threshold,
/// otherwise a boot-trap clearance until one has been sent; nothing without a
/// channel to the system controller.
pub open spec fn thermal_send(v: ThermalControllerView, reading: Result<i32, PeripheralError>) -> Option<ThermalUpdateAction> {
    if !v.has_thermal_tx {
        None
    } else {
        match reading {
            Ok(temp) => if temp > v.critical_temp_milli_c {
                Some(ThermalUpdateAction::AlertTriggered)
            } else if v.first_update {
                Some(ThermalUpdateAction::ClearBootTrap)
            } else {
                None
            },
            Err(_) => if v.first_update {
                Some(ThermalUpdateAction::ClearBootTrap)
            } else {
                None
            },
        }
    }
}

/// The state after a reading.
pub open spec fn thermal_step(v: ThermalControllerView, reading: Result<i32, PeripheralError>) -> ThermalControllerView {
    let first = if !v.has_thermal_tx {
        match reading {
            Ok(temp) => v.first_update && temp > v.critical_temp_milli_c,
            Err(_) => false,
        }
    } else {
        v.first_update
    };
    match reading {
        Ok(temp) => ThermalControllerView { state: next_thermal_state(v, temp), first_update: first, ..v },
        Err(_) => ThermalControllerView { first_update: first, ..v },
    }
}

/// The temperature and state that a reading reports to telemetry.
pub open spec fn thermal_report(v: ThermalControllerView, reading: Result<i32, PeripheralError>) -> (i32, ThermalState) {
    match reading {
        Ok(temp) => (temp, next_thermal_state(v, temp)),
        Err(_) => (SAFE_TEMP_MILLI_C, ThermalState::Normal),
    }
}

/// The overheating threshold minus the hysteresis fits in 32 bits.
pub open spec fn hysteresis_defined(v: ThermalControllerView) -> bool {
    i32::MIN <= v.overheating_temp_milli_c - v.hysteresis_temp_milli_c <= i32::MAX
}

/// Periodically checks the temperature, tracks overheating with hysteresis and
/// raises an alert above the critical temperature.
pub struct ThermalController {
    has_thermal_tx: bool,
    state: ThermalState,
    overheating_temp_milli_c: i32,
    critical_temp_milli_c: i32,
    hysteresis_temp_milli_c: i32,
    first_update: bool,
}

impl View for ThermalController {
    type V = ThermalControllerView;

    closed spec fn view(&self) -> ThermalControllerView {
        ThermalControllerView {
            has_thermal_tx: self.has_thermal_tx,
            state: self.state,
            overheating_temp_milli_c: self.overheating_temp_milli_c,
            critical_temp_milli_c: self.critical_temp_milli_c,
            hysteresis_temp_milli_c: self.hysteresis_temp_milli_c,
            first_update: self.first_update,
        }
    }
}

/// The initial state: normal, thresholds 45 / 60 degrees, 2 degrees hysteresis.
pub open spec fn initial_thermal(has_thermal_tx: bool) -> ThermalControllerView {
    ThermalControllerView {
        has_thermal_tx,
        state: ThermalState::Normal,
        overheating_temp_milli_c: 45000,
        critical_temp_milli_c: 60000,
        hysteresis_temp_milli_c: 2000,
        first_update: true,
    }
}

impl ThermalController {
    /// A controller that sends no actions to the system controller.
    pub fn new() -> (r: Self)
        ensures
            r@ == initial_thermal(false),
    {
        ThermalController {
            has_thermal_tx: false,
            state: ThermalState::Normal,
            overheating_temp_milli_c: 45000,
            critical_temp_milli_c: 60000,
            hysteresis_temp_milli_c: 2000,
            first_update: true,
        }
    }

    /// A controller that sends alerts and the boot-trap clearance to the system
    /// controller.
    pub fn new_with_shutdown() -> (r: Self)
        ensures
            r@ == initial_thermal(true),
    {
        ThermalController {
            has_thermal_tx: true,
            state: ThermalState::Normal,
            overheating_temp_milli_c: 45000,
            critical_temp_milli_c: 60000,
            hysteresis_temp_milli_c: 2000,
            first_update: true,
        }
    }

    /// Same as [`ThermalController::new_with_shutdown`].
    pub fn new_with_shutdown_and_trap() -> (r: Self)
        ensures
            r@ == initial_thermal(true),
    {
        Self::new_with_shutdown()
    }

    /// The thermal state.
    pub fn state(&self) -> (r: ThermalState)
        ensures
            r == self@.state,
    {
        self.state
    }

    /// The overheating threshold (milli-Celsius).
    pub fn overheating_temp_milli_c(&self) -> (r: i32)
        ensures
            r == self@.overheating_temp_milli_c,
    {
        self.overheating_temp_milli_c
    }

    /// Sets the overheating threshold (milli-Celsius).
    pub fn set_overheating_temp_milli_c(&mut self, temp: i32)
        ensures
            final(self)@ == (ThermalControllerView { overheating_temp_milli_c: temp, ..old(self)@ }),
    {
        self.overheating_temp_milli_c = temp;
    }

    /// The critical threshold (milli-Celsius).
    pub fn critical_temp_milli_c(&self) -> (r: i32)
        ensures
            r == self@.critical_temp_milli_c,
    {
        self.critical_temp_milli_c
    }

    /// Sets the critical threshold (milli-Celsius).
    pub fn set_critical_temp_milli_c(&mut self, temp: i32)
        ensures
            final(self)@ == (ThermalControllerView { critical_temp_milli_c: temp, ..old(self)@ }),
    {
        self.critical_temp_milli_c = temp;
    }

    /// The hysteresis (milli-Celsius).
    pub fn hysteresis_temp_milli_c(&self) -> (r: i32)
        ensures
            r == self@.hysteresis_temp_milli_c,
    {
        self.hysteresis_temp_milli_c
    }

    /// Sets the hysteresis (milli-Celsius).
    pub fn set_hysteresis_temp_milli_c(&mut self, val: i32)
        ensures
            final(self)@ == (ThermalControllerView { hysteresis_temp_milli_c: val, ..old(self)@ }),
    {
        self.hysteresis_temp_milli_c = val;
    }

    /// Processes a sensor reading: updates the overheating state, reports the
    /// temperature (25 degrees and `Normal` when the sensor failed), and says
    /// which action to send to the system controller. When that action is the
    /// boot-trap clearance and it was delivered, the caller confirms with
    /// [`ThermalController::boot_trap_clear_sent`]; an undelivered critical alert
    /// is fatal for the caller.
    pub fn update(
        &mut self,
        reading: Result<i32, PeripheralError>,
        telemetry_client: &mut ThermalTelemetryClient,
    ) -> (r: ThermalUpdate)
        requires
            reading is Ok ==> hysteresis_defined(old(self)@),
            thermal_report_defined(
                old(telemetry_client)@.last_temp,
                thermal_report(old(self)@, reading).0,
            ),
        ensures
            final(self)@ == thermal_step(old(self)@, reading),
            r.send == thermal_send(old(self)@, reading),
            r.result == (match reading {
                Ok(_) => Ok::<(), PeripheralError>(()),
                Err(e) => Err(e),
            }),
            final(telemetry_client)@ == ({
                let o = old(telemetry_client)@;
                let (t, st) = thermal_report(old(self)@, reading);
                if o.enabled && crate::telemetry_controller::thermal_report_due(
                    o.last_temp,
                    o.last_state,
                    t,
                    st,
                ) {
                    crate::telemetry_controller::ThermalClientView {
                        enabled: o.enabled,
                        last_temp: Some(t),
                        last_state: Some(st),
                        pending: o.pending.push(
                            crate::model::TelemetryRecord::Thermal(
                                crate::model::ThermalStatus::TempOverheating(
                                    t,
                                    st == ThermalState::Overheating,
                                ),
                            ),
                        ),
                    }
                } else {
                    o
                }
            }),
    {
        match reading {
            Err(e) => {
                let send = if self.first_update {
                    if self.has_thermal_tx {
                        Some(ThermalUpdateAction::ClearBootTrap)
                    } else {
                        self.first_update = false;
                        None
                    }
                } else {
                    None
                };
                telemetry_client.report_thermal(SAFE_TEMP_MILLI_C, ThermalState::Normal);
                ThermalUpdate { send, result: Err(e) }
            },
            Ok(temp) => {
                match self.state {
                    ThermalState::Normal => {
                        if temp > self.overheating_temp_milli_c {
                            self.state = ThermalState::Overheating;
                        }
                    },
                    ThermalState::Overheating => {
                        if temp < self.overheating_temp_milli_c - self.hysteresis_temp_milli_c {
                            self.state = ThermalState::Normal;
                        }
                    },
                }
                let send = if temp > self.critical_temp_milli_c {
                    if self.has_thermal_tx {
                        Some(ThermalUpdateAction::AlertTriggered)
                    } else {
                        None
                    }
                } else if self.first_update {
                    if self.has_thermal_tx {
                        Some(ThermalUpdateAction::ClearBootTrap)
                    } else {
                        self.first_update = false;
                        None
                    }
                } else {
                    None
                };
                telemetry_client.report_thermal(temp, self.state);
                ThermalUpdate { send, result: Ok(()) }
            },
        }
    }

    /// Records that the boot-trap clearance was delivered: it is not sent again.
    pub fn boot_trap_clear_sent(&mut self)
        ensures
            final(self)@ == (ThermalControllerView { first_update: false, ..old(self)@ }),
    {
        self.first_update = false;
    }
}

/// Commands sent to the thermal controller.
#[derive(Clone, Copy, PartialEq, Eq, Structural, Debug)]
pub enum ThermalCommand {
    /// Read the temperature now.
    CheckTemp,
    /// Set the periodic check interval.
    SetInterval(PeriodicInterval),
}

/// Thermal subcommands of the command line.
#[derive(Clone, Copy, PartialEq, Eq, Structural, Debug)]
pub enum ThermalSubcommand {
    /// Read the external temperature sensor.
    Status,
    /// Read the MCU temperature sensor.
    Mcu,
}

impl ThermalSubcommand {
    /// Reads `status` or `mcu`.
    pub fn parse(s: &str) -> (r: Result<ThermalSubcommand, &'static str>)
        ensures
            s@ == "status"@ ==> r == Ok::<ThermalSubcommand, &'static str>(ThermalSubcommand::Status),
            s@ == "mcu"@ ==> r == Ok::<ThermalSubcommand, &'static str>(ThermalSubcommand::Mcu),
            s@ != "status"@ && s@ != "mcu"@ ==> (r matches Err(e) && e@
                == "Invalid thermal subcommand. Expected: status, mcu"@),
    {
        proof {
            reveal_strlit("status");
            reveal_strlit("mcu");
            assert("mcu"@.len() == 3);
            assert("status"@.len() == 6);
        }
        if str_eq(s, "status") {
            Ok(ThermalSubcommand::Status)
        } else if str_eq(s, "mcu") {
            Ok(ThermalSubcommand::Mcu)
        } else {
            Err("Invalid thermal subcommand. Expected: status, mcu")
        }
    }
}

/// Splits a temperature in milli-Celsius into whole degrees (truncated towards
/// zero) and the thousandths of a degree, for display as `degrees.thousandths`.
pub fn temperature_parts(temp: i32) -> (r: (i32, u32))
    requires
        temp != i32::MIN,
    ensures
        r.0 == crate::motor_controller::trunc_div(temp as int, 1000),
        r.1 == crate::motor_controller::abs(temp as int) % 1000,
{
    let a: i32 = if temp < 0 {
        -temp
    } else {
        temp
    };
    let whole: i32 = if temp < 0 {
        -(a / 1000)
    } else {
        a / 1000
    };
    (whole, (a % 1000) as u32)
}

/// The thermal feature of the system: thresholds, boot trap and periodic checks.
pub struct ThermalFeatureConfig {
    /// Whether a thermal controller listens for commands.
    pub thermal_enabled: bool,
    /// Whether a critical thermal alert was raised.
    pub thermal_critical: bool,
    /// Overheating threshold (milli-Celsius).
    pub overheating_temp_milli_c: i32,
    /// Critical threshold (milli-Celsius).
    pub critical_temp_milli_c: i32,
}

impl ThermalFeatureConfig {
    /// The feature with thresholds 45 / 60 degrees.
    pub fn new(thermal_enabled: bool) -> (r: Self)
        ensures
            r == (ThermalFeatureConfig {
                thermal_enabled,
                thermal_critical: false,
                overheating_temp_milli_c: 45000,
                critical_temp_milli_c: 60000,
            }),
    {
        ThermalFeatureConfig {
            thermal_enabled,
            thermal_critical: false,
            overheating_temp_milli_c: 45000,
            critical_temp_milli_c: 60000,
        }
    }

    /// The feature with custom thresholds.
    pub fn new_with_thresholds(
        thermal_enabled: bool,
        overheating_temp_milli_c: i32,
        critical_temp_milli_c: i32,
    ) -> (r: Self)
        ensures
            r == (ThermalFeatureConfig {
                thermal_enabled,
                thermal_critical: false,
                overheating_temp_milli_c,
                critical_temp_milli_c,
            }),
    {
        ThermalFeatureConfig {
            thermal_enabled,
            thermal_critical: false,
            overheating_temp_milli_c,
            critical_temp_milli_c,
        }
    }

    /// The thermal boot trap holds the system down until the first reading, when
    /// a thermal controller is present.
    pub fn default_boot_trap_mask(&self) -> (r: u32)
        ensures
            r == (if self.thermal_enabled {
                crate::types::BOOT_TRAP_THERMAL
            } else {
                0
            }),
    {
        if self.thermal_enabled {
            crate::types::BOOT_TRAP_THERMAL
        } else {
            0
        }
    }

    /// A critical alert marks the system thermally critical.
    pub fn on_alert_triggered(&mut self)
        ensures
            *final(self) == (ThermalFeatureConfig { thermal_critical: true, ..*old(self) }),
    {
        self.thermal_critical = true;
    }

    /// The command for the thermal controller after a state change: check every
    /// second while the new state supports thermal monitoring, stop otherwise;
    /// nothing without a thermal controller.
    pub fn on_state_changed(&self, support: DeviceSupport) -> (r: Option<ThermalCommand>)
        ensures
            r == (if !self.thermal_enabled {
                None
            } else if support.thermal {
                Some(ThermalCommand::SetInterval(PeriodicInterval::UpdateMs(1000)))
            } else {
                Some(ThermalCommand::SetInterval(PeriodicInterval::Disabled))
            }),
    {
        if !self.thermal_enabled {
            None
        } else if support.thermal {
            Some(ThermalCommand::SetInterval(PeriodicInterval::UpdateMs(1000)))
        } else {
            Some(ThermalCommand::SetInterval(PeriodicInterval::Disabled))
        }
    }
}

/// Overheating is sticky within the hysteresis band: an overheating system only
/// cools down below the threshold minus the hysteresis, and a normal one only
/// starts overheating above the threshold.
pub proof fn lemma_hysteresis(v: ThermalControllerView, temp: i32)
    requires
        v.hysteresis_temp_milli_c >= 0,
        v.overheating_temp_milli_c - v.hysteresis_temp_milli_c <= temp <= v.overheating_temp_milli_c,
    ensures
        next_thermal_state(v, temp) == v.state,
{
}

/// Overheating starts strictly above the overheating threshold and ends only
/// strictly below the threshold minus the hysteresis: from normal, a reading
/// overheats exactly when it is above the threshold; from overheating, it
/// cools down exactly when it is below the lowered threshold.
pub proof fn lemma_overheating_transitions(v: ThermalControllerView, temp: i32)
    ensures
        v.state == ThermalState::Normal ==> ((thermal_step(v, Ok(temp)).state == ThermalState::Overheating)
            == (temp > v.overheating_temp_milli_c)),
        v.state == ThermalState::Overheating ==> ((thermal_step(v, Ok(temp)).state == ThermalState::Normal)
            == (temp < v.overheating_temp_milli_c - v.hysteresis_temp_milli_c)),
        thermal_report(v, Ok(temp)) == (temp, thermal_step(v, Ok(temp)).state),
{
}

/// A thermal reading is logged when it is the first one, when the temperature
/// moved by at least one degree since the last logged one, or when the state
/// changed; otherwise it is not.
pub proof fn lemma_thermal_logging(lt: i32, ls: ThermalState, temp: i32, st: ThermalState)
    ensures
        crate::telemetry_controller::thermal_report_due(None, None, temp, st),
        crate::telemetry_controller::thermal_report_due(Some(lt), Some(ls), temp, st) == (temp - lt >= 1000
            || lt - temp >= 1000 || st != ls),
{
}

/// Above the critical temperature, a controller with a channel always raises an
/// alert, whatever its boot-trap state.
pub proof fn lemma_critical_alerts(v: ThermalControllerView, temp: i32)
    requires
        v.has_thermal_tx,
        temp > v.critical_temp_milli_c,
    ensures
        thermal_send(v, Ok(temp)) == Some(ThermalUpdateAction::AlertTriggered),
{
}

/// Once the boot trap has been cleared, only critical alerts are sent.
pub proof fn lemma_clearance_sent_once(v: ThermalControllerView, reading: Result<i32, PeripheralError>)
    requires
        !v.first_update,
    ensures
        thermal_send(v, reading) != Some(ThermalUpdateAction::ClearBootTrap),
        !thermal_step(v, reading).first_update,
{
}

/// A failed reading never changes the thermal state or the thresholds.
pub proof fn lemma_failed_reading_keeps_state(v: ThermalControllerView, e: PeripheralError)
    ensures
        thermal_step(v, Err(e)).state == v.state,
        thermal_step(v, Err(e)).overheating_temp_milli_c == v.overheating_temp_milli_c,
        thermal_step(v, Err(e)).critical_temp_milli_c == v.critical_temp_milli_c,
{
}

/// The controller after a reading whose boot-trap clearance, when one was
/// sent, was delivered and confirmed.
pub open spec fn delivered_step(v: ThermalControllerView, reading: Result<i32, PeripheralError>) -> ThermalControllerView {
    let n = thermal_step(v, reading);
    if thermal_send(v, reading) == Some(ThermalUpdateAction::ClearBootTrap) {
        ThermalControllerView { first_update: false, ..n }
    } else {
        n
    }
}

/// The controller after a run of readings, each delivered clearance confirmed.
pub open spec fn thermal_run(v: ThermalControllerView, readings: Seq<Result<i32, PeripheralError>>) -> ThermalControllerView
    decreases readings.len(),
{
    if readings.len() == 0 {
        v
    } else {
        delivered_step(thermal_run(v, readings.drop_last()), readings.last())
    }
}

/// How many boot-trap clearances a run of readings sends.
pub open spec fn clearances(v: ThermalControllerView, readings: Seq<Result<i32, PeripheralError>>) -> nat
    decreases readings.len(),
{
    if readings.len() == 0 {
        0
    } else {
        clearances(v, readings.drop_last()) + if thermal_send(
            thermal_run(v, readings.drop_last()),
            readings.last(),
        ) == Some(ThermalUpdateAction::ClearBootTrap) {
            1nat
        } else {
            0nat
        }
    }
}

/// Over any run of readings whose delivered clearance is confirmed, the boot
/// trap is cleared at most once, and never by a controller that has already
/// cleared it.
pub proof fn lemma_boot_trap_cleared_once(v: ThermalControllerView, readings: Seq<Result<i32, PeripheralError>>)
    ensures
        clearances(v, readings) <= 1,
        clearances(v, readings) == 1 ==> !thermal_run(v, readings).first_update,
        !v.first_update ==> clearances(v, readings) == 0 && !thermal_run(v, readings).first_update,
    decreases readings.len(),
{
    if readings.len() > 0 {
        let prefix = readings.drop_last();
        lemma_boot_trap_cleared_once(v, prefix);
        let w = thermal_run(v, prefix);
        if !w.first_update {
            lemma_clearance_sent_once(w, readings.last());
        }
    }
}

/// Whether a reading may clear the boot trap: it failed, or it is not above
/// the critical temperature.
pub open spec fn clears_trap(critical_temp_milli_c: i32, reading: Result<i32, PeripheralError>) -> bool {
    match reading {
        Ok(temp) => temp <= critical_temp_milli_c,
        Err(_) => true,
    }
}

/// No reading of `readings` may clear the boot trap.
pub open spec fn none_clears(critical_temp_milli_c: i32, readings: Seq<Result<i32, PeripheralError>>) -> bool {
    forall|i: int| 0 <= i < readings.len() ==> !clears_trap(critical_temp_milli_c, #[trigger] readings[i])
}

/// A reading sends the boot-trap clearance exactly when the controller has a
/// channel, the trap is still pending, and the reading may clear it.
pub proof fn lemma_clearance_step(v: ThermalControllerView, reading: Result<i32, PeripheralError>)
    ensures
        (thermal_send(v, reading) == Some(ThermalUpdateAction::ClearBootTrap)) == (v.has_thermal_tx
            && v.first_update && clears_trap(v.critical_temp_milli_c, reading)),
        delivered_step(v, reading).critical_temp_milli_c == v.critical_temp_milli_c,
        delivered_step(v, reading).has_thermal_tx == v.has_thermal_tx,
{
}

/// For a controller with a channel whose boot trap is pending, over any run of
/// readings (each delivered clearance confirmed): the trap stays pending
/// exactly as long as no reading may clear it, and the clearance is sent once
/// if some reading may clear it, never otherwise.
pub proof fn lemma_boot_trap_run(v: ThermalControllerView, readings: Seq<Result<i32, PeripheralError>>)
    requires
        v.has_thermal_tx,
        v.first_update,
    ensures
        thermal_run(v, readings).critical_temp_milli_c == v.critical_temp_milli_c,
        thermal_run(v, readings).has_thermal_tx,
        thermal_run(v, readings).first_update == none_clears(v.critical_temp_milli_c, readings),
        clearances(v, readings) == (if none_clears(v.critical_temp_milli_c, readings) {
            0nat
        } else {
            1nat
        }),
    decreases readings.len(),
{
    let c = v.critical_temp_milli_c;
    if readings.len() > 0 {
        let prefix = readings.drop_last();
        lemma_boot_trap_run(v, prefix);
        let w = thermal_run(v, prefix);
        lemma_clearance_step(w, readings.last());
        if none_clears(c, readings) {
            assert(none_clears(c, prefix)) by {
                assert forall|i: int| 0 <= i < prefix.len() implies !clears_trap(c, #[trigger] prefix[i]) by {
                    assert(prefix[i] == readings[i]);
                }
            }
            assert(!clears_trap(c, readings[readings.len() - 1]));
        } else if none_clears(c, prefix) {
            let i = choose|i: int| 0 <= i < readings.len() && clears_trap(c, #[trigger] readings[i]);
            if i < prefix.len() {
                assert(prefix[i] == readings[i]);
            }
            assert(clears_trap(c, readings.last()));
        } else {
            let i = choose|i: int| 0 <= i < prefix.len() && clears_trap(c, #[trigger] prefix[i]);
            assert(prefix[i] == readings[i]);
        }
    } else {
        assert(none_clears(c, readings));
    }
}

/// The boot-trap clearance is sent exactly once overall, by the first reading
/// that may clear it: reading `i` of a run sends it exactly when it may clear
/// the trap and no earlier reading may.
pub proof fn lemma_first_clearing_reading_clears(
    v: ThermalControllerView,
    readings: Seq<Result<i32, PeripheralError>>,
    i: int,
)
    requires
        v.has_thermal_tx,
        v.first_update,
        0 <= i < readings.len(),
    ensures
        (thermal_send(thermal_run(v, readings.take(i)), readings[i]) == Some(ThermalUpdateAction::ClearBootTrap))
            == (clears_trap(v.critical_temp_milli_c, readings[i]) && none_clears(
            v.critical_temp_milli_c,
            readings.take(i),
        )),
{
    lemma_boot_trap_run(v, readings.take(i));
    lemma_clearance_step(thermal_run(v, readings.take(i)), readings[i]);
}

} // verus!
