//! Battery supervision: state of charge reporting, low-voltage detection and the
//! reaction to fuel gauge alerts.

use crate::model::{
    BatteryState as TelemetryBatteryState, BatteryStatus as TelemetryBatteryStatus, ChargeState,
    Device, FuelGaugeTelemetry, PeriodicInterval, PeripheralError, TelemetryRecord,
};
use crate::parse::str_eq;
use crate::telemetry_controller::{BatteryTelemetryClient, ForwardingClientView, TelemetryClient, forwarded};
use crate::system_controller::{SystemCommand, SystemOutbox, SystemOutboxView, outbox_sent};
use crate::types::{BatteryUpdateAction, DeviceSupport};
use vstd::prelude::*;

verus! {

/// Default minimum voltage alert threshold (mV).
pub const DEFAULT_ALERT_V_MIN_MV: u32 = 3000;

/// Default maximum voltage alert threshold (mV).
pub const DEFAULT_ALERT_V_MAX_MV: u32 = 4200;

/// Minimum voltage threshold (mV) that forces an alert during the alert test.
pub const TEST_ALERT_V_MIN_MV: u32 = 4500;

/// Maximum voltage threshold (mV) used during the alert test.
pub const TEST_ALERT_V_MAX_MV: u32 = 5000;

/// Voltage (mV) under which the battery counts as low.
pub const LOW_VOLTAGE_MV: u32 = 3500;

/// Temperature (milli-Celsius) reported with battery statuses.
pub const REPORTED_TEMP_MILLI_C: i32 = 25000;

/// Voltage change (mV) that is worth logging.
pub const VOLTAGE_LOG_STEP_MV: u32 = 10;

/// The fuel gauge's alert line.
pub trait BatteryAlertPin {
    /// Whether the alert is asserted.
    fn is_asserted(&self) -> bool;
}

/// An alert line that is never asserted.
pub struct DummyAlertPin;

impl BatteryAlertPin for DummyAlertPin {
    fn is_asserted(&self) -> (r: bool)
        ensures
            !r,
    {
        false
    }
}

/// Operating state of the battery.
#[derive(Clone, Copy, PartialEq, Eq, Structural, Debug)]
pub enum BatteryState {
    /// Voltage normal.
    Normal,
    /// Voltage low.
    Low,
}

/// Errors of a battery update.
#[derive(Clone, Copy, PartialEq, Eq, Structural, Debug)]
pub enum BatteryControllerError {
    /// The fuel gauge could not be read.
    FuelGauge(PeripheralError),
    /// The battery update could not be delivered to the system controller.
    SystemChannelSendFailed,
}

impl BatteryControllerError {
    /// The peripheral error this error stands for.
    pub fn to_peripheral_error(&self) -> (r: PeripheralError)
        ensures
            r == (match self {
                BatteryControllerError::FuelGauge(e) => *e,
                BatteryControllerError::SystemChannelSendFailed => PeripheralError::Unknown,
            }),
    {
        match self {
            BatteryControllerError::FuelGauge(e) => *e,
            BatteryControllerError::SystemChannelSendFailed => PeripheralError::Unknown,
        }
    }
}

/// Commands sent to the battery controller.
#[derive(Clone, Copy, PartialEq, Eq, Structural, Debug)]
pub enum BatteryCommand {
    /// Read the battery now.
    CheckStatus,
    /// Record the active wake-lock mask.
    UpdateWakeLocks(u32),
    /// Set the periodic check interval.
    SetInterval(PeriodicInterval),
    /// Record the battery temperature (milli-Celsius) for compensation.
    UpdateTemperature(i32),
}

/// The abstract state of a [`BatteryController`].
pub struct BatteryControllerView {
    /// Whether battery updates are sent to the system controller.
    pub has_system_tx: bool,
    /// Battery state.
    pub state: BatteryState,
    /// Last voltage logged (mV).
    pub last_reported_voltage: Option<u32>,
    /// Last state logged.
    pub last_reported_state: Option<BatteryState>,
    /// Active wake-lock mask.
    pub active_wake_locks: u32,
    /// Latest battery temperature (milli-Celsius), for compensation.
    pub latest_temp_milli_c: Option<i32>,
}

/// The result of processing one fuel gauge reading.
#[derive(Clone, Copy, Debug)]
pub struct BatteryUpdate {
    /// The state of charge and charger state to send to the system controller;
    /// a failed delivery is fatal for the caller.
    pub system_update: Option<(u8, ChargeState)>,
    /// Whether the reading is worth logging.
    pub log: bool,
    /// The reading error, if the fuel gauge could not be read.
    pub result: Result<(), BatteryControllerError>,
}

/// The voltage of a reading (0 when the fuel gauge failed).
pub open spec fn reading_voltage(reading: Result<(u32, u8), PeripheralError>) -> u32 {
    match reading {
        Ok((v, _)) => v,
        Err(_) => 0,
    }
}

/// The state of charge of a reading (0 when the fuel gauge failed).
pub open spec fn reading_soc(reading: Result<(u32, u8), PeripheralError>) -> u8 {
    match reading {
        Ok((_, s)) => s,
        Err(_) => 0,
    }
}

/// The battery state after a reading: low under 3.5 V, normal otherwise and when
/// the fuel gauge failed.
pub open spec fn battery_state_of(reading: Result<(u32, u8), PeripheralError>) -> BatteryState {
    match reading {
        Ok((v, _)) => if v < LOW_VOLTAGE_MV {
            BatteryState::Low
        } else {
            BatteryState::Normal
        },
        Err(_) => BatteryState::Normal,
    }
}

/// The state of charge reported to the system controller: 100% when the fuel
/// gauge failed, so that a broken gauge never forces a power-down.
pub open spec fn reported_soc(reading: Result<(u32, u8), PeripheralError>) -> u8 {
    match reading {
        Ok((_, s)) => s,
        Err(_) => 100,
    }
}

/// The charger state, unplugged when the charger could not be read.
pub open spec fn charger_state_of(charger: Result<ChargeState, PeripheralError>) -> ChargeState {
    match charger {
        Ok(c) => c,
        Err(_) => ChargeState::DoneOrStandbyOrUnplugged,
    }
}

/// The telemetry state of a reading.
pub open spec fn telemetry_state_of(reading: Result<(u32, u8), PeripheralError>) -> TelemetryBatteryState {
    match reading {
        Ok(_) => match battery_state_of(reading) {
            BatteryState::Normal => TelemetryBatteryState::Normal,
            BatteryState::Low => TelemetryBatteryState::Low,
        },
        Err(_) => TelemetryBatteryState::Critical,
    }
}

/// The records a reading reports: status, fuel gauge values, charger state, and
/// the reading error if any.
pub open spec fn battery_records(
    v: BatteryControllerView,
    reading: Result<(u32, u8), PeripheralError>,
    charger: ChargeState,
) -> Seq<TelemetryRecord> {
    let base = seq![
        TelemetryRecord::Battery(
            TelemetryBatteryStatus::VolTempState(
                reading_voltage(reading),
                REPORTED_TEMP_MILLI_C,
                telemetry_state_of(reading),
                v.active_wake_locks,
            ),
        ),
        TelemetryRecord::FuelGauge(
            FuelGaugeTelemetry::VolSoc(reading_voltage(reading), reading_soc(reading)),
        ),
        TelemetryRecord::ChargerState(charger),
    ];
    match reading {
        Ok(_) => base,
        Err(e) => base.push(TelemetryRecord::PeripheralError(e)),
    }
}

/// Whether the voltage moved by at least 10 mV since the last log.
pub open spec fn voltage_changed(last: Option<u32>, voltage: u32) -> bool {
    match last {
        None => true,
        Some(l) => (if voltage >= l {
            voltage - l
        } else {
            l - voltage
        }) >= VOLTAGE_LOG_STEP_MV,
    }
}

/// The state after a reading.
pub open spec fn battery_step(v: BatteryControllerView, reading: Result<(u32, u8), PeripheralError>) -> BatteryControllerView {
    let state = battery_state_of(reading);
    let voltage = reading_voltage(reading);
    BatteryControllerView {
        state,
        last_reported_voltage: if voltage_changed(v.last_reported_voltage, voltage) {
            Some(voltage)
        } else {
            v.last_reported_voltage
        },
        last_reported_state: if v.last_reported_state != Some(state) {
            Some(state)
        } else {
            v.last_reported_state
        },
        ..v
    }
}

/// Whether sending a battery update to the system controller fails: one
/// listens and its queue is full.
pub open spec fn system_send_fails(v: BatteryControllerView, tx: SystemOutboxView) -> bool {
    v.has_system_tx && tx.pending.len() >= tx.capacity
}

/// The update a voltage alert sends to the system controller: empty battery,
/// charger unplugged.
pub open spec fn critical_update() -> SystemCommand {
    SystemCommand::BatteryUpdate { state_of_charge: 0, charger_state: ChargeState::DoneOrStandbyOrUnplugged }
}

/// What the boot sequence hands back.
#[derive(Clone, Copy, Debug)]
pub struct BootOutcome {
    /// The first update.
    pub update: BatteryUpdate,
    /// Whether periodic checks are off (the first reading failed).
    pub periodic_off: bool,
    /// Whether the system controller could not be told: fatal for the caller.
    pub fatal: bool,
}

/// The record of a failed alert configuration.
pub open spec fn config_records(config: Result<(), PeripheralError>) -> Seq<TelemetryRecord> {
    match config {
        Ok(_) => Seq::empty(),
        Err(e) => seq![TelemetryRecord::PeripheralError(e)],
    }
}

/// The records of the boot sequence: the configuration failure, the first
/// update's records, the fuel gauge error once more when the reading failed,
/// and `InvalidConfiguration` after a configuration failure; only the first
/// when the system controller's queue is full.
pub open spec fn boot_records(
    v: BatteryControllerView,
    tx: SystemOutboxView,
    config: Result<(), PeripheralError>,
    reading: Result<(u32, u8), PeripheralError>,
    charger: Result<ChargeState, PeripheralError>,
) -> Seq<TelemetryRecord> {
    if system_send_fails(v, tx) {
        config_records(config)
    } else {
        let upd = config_records(config) + battery_records(v, reading, charger_state_of(charger));
        let with_err = match reading {
            Ok(_) => upd,
            Err(e) => upd.push(TelemetryRecord::PeripheralError(e)),
        };
        if config is Err {
            with_err.push(TelemetryRecord::PeripheralError(PeripheralError::InvalidConfiguration))
        } else {
            with_err
        }
    }
}

/// The system controller's queue after the boot sequence: the first update,
/// then, after a failed reading, the boot-trap clearance (each only when there
/// is room, and only when a system controller listens).
pub open spec fn boot_outbox(
    v: BatteryControllerView,
    tx: SystemOutboxView,
    reading: Result<(u32, u8), PeripheralError>,
    charger: Result<ChargeState, PeripheralError>,
) -> SystemOutboxView {
    if !v.has_system_tx {
        tx
    } else {
        let t1 = outbox_sent(
            tx,
            SystemCommand::BatteryUpdate {
                state_of_charge: reported_soc(reading),
                charger_state: charger_state_of(charger),
            },
        );
        if reading is Err && !system_send_fails(v, tx) {
            outbox_sent(t1, SystemCommand::BatteryAction(BatteryUpdateAction::ClearBootTrap))
        } else {
            t1
        }
    }
}

/// Offering nothing leaves a client as it was.
proof fn lemma_forwarded_all_empty(c: ForwardingClientView)
    ensures
        forwarded_all(c, Seq::empty()) == c,
{
    assert(c.pending + Seq::<TelemetryRecord>::empty() =~= c.pending);
}

/// Offering one more record after `recs`.
proof fn lemma_forwarded_all_push(c: ForwardingClientView, recs: Seq<TelemetryRecord>, rec: TelemetryRecord)
    ensures
        forwarded(forwarded_all(c, recs), rec) == forwarded_all(c, recs.push(rec)),
{
    assert((c.pending + recs).push(rec) =~= c.pending + recs.push(rec));
}

/// Offering `a` and then `b` is offering `a + b`.
proof fn lemma_forwarded_all_concat(c: ForwardingClientView, a: Seq<TelemetryRecord>, b: Seq<TelemetryRecord>)
    ensures
        forwarded_all(forwarded_all(c, a), b) == forwarded_all(c, a + b),
{
    assert(c.pending + a + b =~= c.pending + (a + b));
}

/// Logged voltages fit in 32-bit signed arithmetic.
pub open spec fn battery_wf(v: BatteryControllerView) -> bool {
    v.last_reported_voltage matches Some(l) ==> l <= i32::MAX
}

/// Outbox contents after offering a sequence of records to a forwarding client.
pub open spec fn forwarded_all(v: ForwardingClientView, recs: Seq<TelemetryRecord>) -> ForwardingClientView {
    ForwardingClientView {
        enabled: v.enabled,
        pending: if v.enabled {
            v.pending + recs
        } else {
            v.pending
        },
    }
}

/// Monitors the battery: classifies readings, forwards the state of charge to the
/// system controller and reports telemetry.
pub struct BatteryController {
    has_system_tx: bool,
    state: BatteryState,
    last_reported_voltage: Option<u32>,
    last_reported_state: Option<BatteryState>,
    active_wake_locks: u32,
    latest_temp_milli_c: Option<i32>,
}

impl View for BatteryController {
    type V = BatteryControllerView;

    closed spec fn view(&self) -> BatteryControllerView {
        BatteryControllerView {
            has_system_tx: self.has_system_tx,
            state: self.state,
            last_reported_voltage: self.last_reported_voltage,
            last_reported_state: self.last_reported_state,
            active_wake_locks: self.active_wake_locks,
            latest_temp_milli_c: self.latest_temp_milli_c,
        }
    }
}

/// The initial state of a battery controller.
pub open spec fn initial_battery(has_system_tx: bool) -> BatteryControllerView {
    BatteryControllerView {
        has_system_tx,
        state: BatteryState::Normal,
        last_reported_voltage: None,
        last_reported_state: None,
        active_wake_locks: 0,
        latest_temp_milli_c: None,
    }
}

impl BatteryController {
    /// A controller that does not notify the system controller.
    pub fn new() -> (r: Self)
        ensures
            r@ == initial_battery(false),
            battery_wf(r@),
    {
        BatteryController {
            has_system_tx: false,
            state: BatteryState::Normal,
            last_reported_voltage: None,
            last_reported_state: None,
            active_wake_locks: 0,
            latest_temp_milli_c: None,
        }
    }

    /// A controller that forwards battery updates to the system controller.
    pub fn new_with_system() -> (r: Self)
        ensures
            r@ == initial_battery(true),
            battery_wf(r@),
    {
        BatteryController {
            has_system_tx: true,
            state: BatteryState::Normal,
            last_reported_voltage: None,
            last_reported_state: None,
            active_wake_locks: 0,
            latest_temp_milli_c: None,
        }
    }

    /// Same as [`BatteryController::new_with_system`]; the alert pin stays with
    /// the caller's run loop.
    pub fn new_with_system_and_alert() -> (r: Self)
        ensures
            r@ == initial_battery(true),
            battery_wf(r@),
    {
        Self::new_with_system()
    }

    /// The battery state.
    pub fn state(&self) -> (r: BatteryState)
        ensures
            r == self@.state,
    {
        self.state
    }

    /// The temperature to compensate the fuel gauge with before a reading.
    pub fn compensation_temperature(&self) -> (r: Option<i32>)
        ensures
            r == self@.latest_temp_milli_c,
    {
        self.latest_temp_milli_c
    }

    /// Processes a fuel gauge reading (voltage in mV, state of charge in %) and
    /// the charger state: classifies the battery, sends the state of charge and
    /// charger state to the system controller (when one listens), then reports
    /// status, fuel gauge values, charger state and any error, and decides
    /// whether to log. An unreadable charger counts as unplugged. When the system
    /// controller's queue is full, the update fails with `SystemChannelSendFailed`
    /// after classifying the battery, reporting and logging nothing.
    pub fn update(
        &mut self,
        reading: Result<(u32, u8), PeripheralError>,
        charger: Result<ChargeState, PeripheralError>,
        system_tx: &mut SystemOutbox,
        telemetry_client: &mut BatteryTelemetryClient,
    ) -> (r: BatteryUpdate)
        requires
            battery_wf(old(self)@),
            reading_voltage(reading) <= i32::MAX,
        ensures
            battery_wf(final(self)@),
            r.system_update == (if old(self)@.has_system_tx {
                Some((reported_soc(reading), charger_state_of(charger)))
            } else {
                None
            }),
            final(system_tx)@ == (if old(self)@.has_system_tx {
                outbox_sent(
                    old(system_tx)@,
                    SystemCommand::BatteryUpdate {
                        state_of_charge: reported_soc(reading),
                        charger_state: charger_state_of(charger),
                    },
                )
            } else {
                old(system_tx)@
            }),
            system_send_fails(old(self)@, old(system_tx)@) ==> {
                &&& final(self)@ == BatteryControllerView {
                    state: battery_step(old(self)@, reading).state,
                    ..old(self)@
                }
                &&& !r.log
                &&& r.result == Err::<(), BatteryControllerError>(
                    BatteryControllerError::SystemChannelSendFailed,
                )
                &&& final(telemetry_client)@ == old(telemetry_client)@
            },
            !system_send_fails(old(self)@, old(system_tx)@) ==> {
                &&& final(self)@ == battery_step(old(self)@, reading)
                &&& r.log == (voltage_changed(old(self)@.last_reported_voltage, reading_voltage(reading))
                    || old(self)@.last_reported_state != Some(battery_state_of(reading)))
                &&& r.result == (match reading {
                    Ok(_) => Ok::<(), BatteryControllerError>(()),
                    Err(e) => Err(BatteryControllerError::FuelGauge(e)),
                })
                &&& final(telemetry_client)@ == forwarded_all(
                    old(telemetry_client)@,
                    battery_records(old(self)@, reading, charger_state_of(charger)),
                )
            },
    {
        let charger_state = match charger {
            Ok(c) => c,
            Err(_) => ChargeState::DoneOrStandbyOrUnplugged,
        };
        let (voltage, soc, read_failed) = match reading {
            Ok((v, s)) => (v, s, false),
            Err(_) => (0u32, 0u8, true),
        };
        let reported = if read_failed {
            self.state = BatteryState::Normal;
            100u8
        } else {
            if voltage < LOW_VOLTAGE_MV {
                self.state = BatteryState::Low;
            } else {
                self.state = BatteryState::Normal;
            }
            soc
        };
        let system_update = if self.has_system_tx {
            if !system_tx.try_send(SystemCommand::from_battery_update(reported, charger_state)) {
                return BatteryUpdate {
                    system_update: Some((reported, charger_state)),
                    log: false,
                    result: Err(BatteryControllerError::SystemChannelSendFailed),
                };
            }
            Some((reported, charger_state))
        } else {
            None
        };

        let ghost c0 = telemetry_client@;
        let battery_state = if read_failed {
            TelemetryBatteryState::Critical
        } else {
            match self.state {
                BatteryState::Normal => TelemetryBatteryState::Normal,
                BatteryState::Low => TelemetryBatteryState::Low,
            }
        };
        let status = TelemetryBatteryStatus::VolTempState(
            voltage,
            REPORTED_TEMP_MILLI_C,
            battery_state,
            self.active_wake_locks,
        );
        telemetry_client.report(status);
        telemetry_client.report(FuelGaugeTelemetry::VolSoc(voltage, soc));
        telemetry_client.report(charger_state);
        let result = match reading {
            Ok(_) => Ok(()),
            Err(e) => {
                telemetry_client.report_error(e);
                Err(BatteryControllerError::FuelGauge(e))
            },
        };
        proof {
            let recs = battery_records(old(self)@, reading, charger_state);
            if c0.enabled {
                assert(telemetry_client@.pending =~= c0.pending + recs);
            }
        }

        let v_changed = match self.last_reported_voltage {
            None => true,
            Some(last) => {
                let d: i32 = voltage as i32 - last as i32;
                let a: i32 = if d < 0 {
                    -d
                } else {
                    d
                };
                a >= 10
            },
        };
        let s_changed = match self.last_reported_state {
            Some(s) => s != self.state,
            None => true,
        };
        if v_changed {
            self.last_reported_voltage = Some(voltage);
        }
        if s_changed {
            self.last_reported_state = Some(self.state);
        }
        BatteryUpdate { system_update, log: v_changed || s_changed, result }
    }

    /// The boot sequence, given the result of configuring the fuel gauge's
    /// alerts ([`boot_alert_config`]), the first reading and the charger state:
    /// a configuration failure is reported; the first reading is processed as
    /// [`BatteryController::update`] does. When it fails, the failure is handled
    /// as [`BatteryController::handle_update_error`] does: an undelivered system
    /// update is fatal and ends the boot; a fuel gauge error stops periodic checks
    /// and the boot trap is cleared (when a system controller listens, and only
    /// if its queue has room) so that the system boots with warnings. Last, a
    /// configuration failure is reported once more as `InvalidConfiguration`.
    pub fn boot(
        &mut self,
        config: Result<(), PeripheralError>,
        reading: Result<(u32, u8), PeripheralError>,
        charger: Result<ChargeState, PeripheralError>,
        system_tx: &mut SystemOutbox,
        telemetry_client: &mut BatteryTelemetryClient,
    ) -> (r: BootOutcome)
        requires
            battery_wf(old(self)@),
            reading_voltage(reading) <= i32::MAX,
        ensures
            battery_wf(final(self)@),
            r.fatal == system_send_fails(old(self)@, old(system_tx)@),
            r.periodic_off == (!r.fatal && reading is Err),
            final(self)@ == (if r.fatal {
                BatteryControllerView { state: battery_step(old(self)@, reading).state, ..old(self)@ }
            } else {
                battery_step(old(self)@, reading)
            }),
            final(system_tx)@ == boot_outbox(old(self)@, old(system_tx)@, reading, charger),
            final(telemetry_client)@ == forwarded_all(
                old(telemetry_client)@,
                boot_records(old(self)@, old(system_tx)@, config, reading, charger),
            ),
    {
        let ghost v0 = self@;
        let ghost t0 = system_tx@;
        let ghost c0 = telemetry_client@;
        let ghost cfg = config_records(config);
        if let Err(e) = config {
            telemetry_client.report_error(e);
        }
        proof {
            lemma_forwarded_all_empty(c0);
            if let Err(e) = config {
                lemma_forwarded_all_push(c0, Seq::empty(), TelemetryRecord::PeripheralError(e));
                assert(Seq::<TelemetryRecord>::empty().push(TelemetryRecord::PeripheralError(e)) =~= cfg);
            } else {
                assert(cfg =~= Seq::<TelemetryRecord>::empty());
            }
        }
        let ghost c1 = telemetry_client@;
        let u = self.update(reading, charger, system_tx, telemetry_client);
        let ghost upd = if system_send_fails(v0, t0) {
            Seq::<TelemetryRecord>::empty()
        } else {
            battery_records(v0, reading, charger_state_of(charger))
        };
        proof {
            lemma_forwarded_all_concat(c0, cfg, upd);
            if system_send_fails(v0, t0) {
                assert(upd =~= Seq::<TelemetryRecord>::empty());
                assert(cfg + upd =~= cfg);
            }
        }
        let mut fatal = false;
        let mut periodic_off = false;
        let ghost mut sofar = cfg + upd;
        if let Err(e) = u.result {
            fatal = self.handle_update_error(e, telemetry_client);
            if fatal {
                proof {
                    assert(boot_records(v0, t0, config, reading, charger) =~= sofar);
                }
                return BootOutcome { update: u, periodic_off: false, fatal: true };
            }
            proof {
                let er = match e {
                    BatteryControllerError::FuelGauge(x) => TelemetryRecord::PeripheralError(x),
                    _ => TelemetryRecord::PeripheralError(PeripheralError::Unknown),
                };
                lemma_forwarded_all_push(c0, sofar, er);
                sofar = sofar.push(er);
            }
            periodic_off = true;
            if self.has_system_tx {
                let _ = system_tx.try_send(SystemCommand::BatteryAction(BatteryUpdateAction::ClearBootTrap));
            }
        }
        if config.is_err() {
            telemetry_client.report_error(PeripheralError::InvalidConfiguration);
            proof {
                lemma_forwarded_all_push(
                    c0,
                    sofar,
                    TelemetryRecord::PeripheralError(PeripheralError::InvalidConfiguration),
                );
                sofar = sofar.push(TelemetryRecord::PeripheralError(PeripheralError::InvalidConfiguration));
            }
        }
        proof {
            assert(boot_records(v0, t0, config, reading, charger) =~= sofar);
        }
        BootOutcome { update: u, periodic_off, fatal }
    }

    /// Sends the critical update that a voltage alert asks for (0%, unplugged) to
    /// the system controller, reporting an `Unknown` error when its queue is
    /// full; nothing without a system controller.
    pub fn send_critical(&self, system_tx: &mut SystemOutbox, telemetry_client: &mut BatteryTelemetryClient)
        ensures
            final(system_tx)@ == (if self@.has_system_tx {
                outbox_sent(old(system_tx)@, critical_update())
            } else {
                old(system_tx)@
            }),
            final(telemetry_client)@ == (if system_send_fails(self@, old(system_tx)@) {
                forwarded(old(telemetry_client)@, TelemetryRecord::PeripheralError(PeripheralError::Unknown))
            } else {
                old(telemetry_client)@
            }),
    {
        if self.has_system_tx {
            if !system_tx.try_send(
                SystemCommand::from_battery_update(0, ChargeState::DoneOrStandbyOrUnplugged),
            ) {
                telemetry_client.report_error(PeripheralError::Unknown);
            }
        }
    }

    /// Reacts to a failed update: a fuel gauge error is reported (the caller then
    /// stops periodic checks); an undelivered system update is fatal, which the
    /// result says.
    pub fn handle_update_error(
        &self,
        e: BatteryControllerError,
        telemetry_client: &mut BatteryTelemetryClient,
    ) -> (fatal: bool)
        ensures
            fatal == (e == BatteryControllerError::SystemChannelSendFailed),
            final(telemetry_client)@ == (match e {
                BatteryControllerError::FuelGauge(err) => forwarded(
                    old(telemetry_client)@,
                    TelemetryRecord::PeripheralError(err),
                ),
                BatteryControllerError::SystemChannelSendFailed => old(telemetry_client)@,
            }),
    {
        match e {
            BatteryControllerError::FuelGauge(err) => {
                telemetry_client.report_error(err);
                false
            },
            BatteryControllerError::SystemChannelSendFailed => true,
        }
    }

    /// Applies a command that needs no reading; returns whether a reading is due
    /// (for `CheckStatus`) and, for `SetInterval`, the new interval, which is also
    /// reported.
    pub fn apply_command(
        &mut self,
        cmd: BatteryCommand,
        telemetry_client: &mut BatteryTelemetryClient,
    ) -> (r: (bool, Option<PeriodicInterval>))
        ensures
            battery_wf(old(self)@) ==> battery_wf(final(self)@),
            r == (match cmd {
                BatteryCommand::CheckStatus => (true, None::<PeriodicInterval>),
                BatteryCommand::SetInterval(i) => (false, Some(i)),
                _ => (false, None::<PeriodicInterval>),
            }),
            final(self)@ == (match cmd {
                BatteryCommand::UpdateWakeLocks(mask) => BatteryControllerView {
                    active_wake_locks: mask,
                    ..old(self)@
                },
                BatteryCommand::UpdateTemperature(t) => BatteryControllerView {
                    latest_temp_milli_c: Some(t),
                    ..old(self)@
                },
                _ => old(self)@,
            }),
            final(telemetry_client)@ == (match cmd {
                BatteryCommand::SetInterval(i) => forwarded(
                    old(telemetry_client)@,
                    TelemetryRecord::PeriodicInterval(Device::Battery, i),
                ),
                _ => old(telemetry_client)@,
            }),
    {
        match cmd {
            BatteryCommand::CheckStatus => (true, None),
            BatteryCommand::UpdateWakeLocks(mask) => {
                self.active_wake_locks = mask;
                (false, None)
            },
            BatteryCommand::SetInterval(interval) => {
                telemetry_client.report_interval(Device::Battery, interval);
                (false, Some(interval))
            },
            BatteryCommand::UpdateTemperature(temp) => {
                self.latest_temp_milli_c = Some(temp);
                (false, None)
            },
        }
    }

    /// Reacts to a fuel gauge alert, given what the gauge's alert flags read as
    /// (voltage alert, state-of-charge alert) and whether periodic checks run. A
    /// voltage alert marks the battery low and asks for a critical update
    /// (0%, unplugged) to the system controller; a state-of-charge alert asks for
    /// a reading; otherwise a reading is due when periodic checks run. A failed
    /// flag read is reported and counts as no alert.
    pub fn on_alert(
        &mut self,
        alerts: Result<(bool, bool), PeripheralError>,
        periodic: bool,
        telemetry_client: &mut BatteryTelemetryClient,
    ) -> (r: AlertResponse)
        ensures
            battery_wf(old(self)@) ==> battery_wf(final(self)@),
            r == (match alerts {
                Ok((true, _)) => if old(self)@.has_system_tx {
                    AlertResponse::SendCritical
                } else {
                    AlertResponse::NoAction
                },
                Ok((false, true)) => AlertResponse::Update,
                _ => if periodic {
                    AlertResponse::Update
                } else {
                    AlertResponse::NoAction
                },
            }),
            final(self)@ == (match alerts {
                Ok((true, _)) => BatteryControllerView { state: BatteryState::Low, ..old(self)@ },
                _ => old(self)@,
            }),
            final(telemetry_client)@ == (match alerts {
                Err(e) => forwarded(old(telemetry_client)@, TelemetryRecord::PeripheralError(e)),
                _ => old(telemetry_client)@,
            }),
    {
        let (is_voltage_alert, is_soc_alert) = match alerts {
            Ok((v, s)) => (v, s),
            Err(e) => {
                telemetry_client.report_error(e);
                (false, false)
            },
        };
        if is_voltage_alert {
            self.state = BatteryState::Low;
            if self.has_system_tx {
                AlertResponse::SendCritical
            } else {
                AlertResponse::NoAction
            }
        } else if is_soc_alert {
            AlertResponse::Update
        } else if periodic {
            AlertResponse::Update
        } else {
            AlertResponse::NoAction
        }
    }
}

/// The fuel gauge alerts configured at boot.
#[derive(Clone, Copy, PartialEq, Eq, Structural, Debug)]
pub struct AlertConfig {
    /// Low-voltage alert threshold (mV).
    pub low_mv: u32,
    /// High-voltage alert threshold (mV).
    pub high_mv: u32,
    /// Empty state-of-charge alert threshold (%).
    pub empty_soc: u8,
    /// Whether every 1% change of the state of charge raises an alert.
    pub soc_change_alert: bool,
}

/// The alerts configured at boot: 3.0 V low, 4.2 V high, 10% empty, and an
/// alert on every 1% change of the state of charge.
pub fn boot_alert_config() -> (r: AlertConfig)
    ensures
        r == (AlertConfig { low_mv: 3000, high_mv: 4200, empty_soc: 10, soc_change_alert: true }),
{
    AlertConfig { low_mv: 3000, high_mv: 4200, empty_soc: 10, soc_change_alert: true }
}

/// What the battery run loop does after an alert.
#[derive(Clone, Copy, PartialEq, Eq, Structural, Debug)]
pub enum AlertResponse {
    /// Nothing.
    NoAction,
    /// Read the battery.
    Update,
    /// Send a critical update (0%, unplugged) to the system controller, reporting
    /// an `Unknown` error when it cannot be delivered.
    SendCritical,
}

/// How many times the test reads the pin waiting for it to assert.
pub const ASSERT_POLLS: u8 = 30;

/// How many times the test reads the pin waiting for it to deassert.
pub const DEASSERT_POLLS: u8 = 10;

/// Where the alert-pin test stands.
#[derive(Clone, Copy, PartialEq, Eq, Structural, Debug)]
pub enum AlertTestPhase {
    /// Waiting for the test thresholds to be configured.
    AwaitTestConfig,
    /// Reading the pin until it asserts; the count of reads made.
    PollAssert(u8),
    /// Waiting for the normal thresholds to be restored.
    AwaitRestore,
    /// Waiting for the alert status to be read and cleared.
    AwaitClear,
    /// Reading the pin until it deasserts; the count of reads made.
    PollDeassert(u8),
    /// Finished.
    Done,
}

/// The alert-pin test's state.
#[derive(Clone, Copy, PartialEq, Eq, Debug)]
pub struct AlertTest {
    /// Where it stands.
    pub phase: AlertTestPhase,
    /// Whether the pin asserted.
    pub asserted: bool,
    /// The alerts (voltage, state of charge) read before clearing.
    pub alerts: (bool, bool),
}

/// What the caller did for the test.
#[derive(Clone, Copy, PartialEq, Eq, Debug)]
pub enum AlertTestEvent {
    /// The thresholds were configured, or not.
    Configured(bool),
    /// The pin was read: whether it is asserted (low), or the read failed.
    Pin(Result<bool, PeripheralError>),
    /// The alert status was read and cleared: (voltage, state of charge).
    Cleared(Result<(bool, bool), PeripheralError>),
}

/// Why the test failed.
#[derive(Clone, Copy, PartialEq, Eq, Structural, Debug)]
pub enum AlertTestFailure {
    /// The test thresholds could not be configured.
    Configure,
    /// The normal thresholds could not be restored.
    Restore,
    /// The alert status could not be cleared.
    Clear,
}

impl AlertTestFailure {
    /// The message of the failure.
    pub fn message(&self) -> (r: &'static str)
        ensures
            r@ == match self {
                AlertTestFailure::Configure => "Failed to configure test alert thresholds"@,
                AlertTestFailure::Restore => "Failed to restore alert thresholds"@,
                AlertTestFailure::Clear => "Failed to clear alerts"@,
            },
    {
        match self {
            AlertTestFailure::Configure => "Failed to configure test alert thresholds",
            AlertTestFailure::Restore => "Failed to restore alert thresholds",
            AlertTestFailure::Clear => "Failed to clear alerts",
        }
    }
}

/// What the test asks of the caller next.
#[derive(Clone, Copy, PartialEq, Eq, Structural, Debug)]
pub enum AlertTestAction {
    /// Configure the voltage alert window (min, max) in mV.
    Configure(u32, u32),
    /// Read the pin (after a 10 ms pause when it is not the first read).
    ReadPin,
    /// Read and clear the alert status.
    Clear,
    /// Report the outcome: pin asserted, pin deasserted, and the alerts read.
    Report {
        /// The pin asserted.
        asserted: bool,
        /// The pin deasserted again.
        deasserted: bool,
        /// A voltage alert was pending.
        voltage: bool,
        /// A state-of-charge alert was pending.
        soc: bool,
    },
    /// Stop with a failure.
    Fail(AlertTestFailure),
}

/// Whether `e` is what the test waits for in phase `p`.
pub open spec fn alert_event_fits(p: AlertTestPhase, e: AlertTestEvent) -> bool {
    match p {
        AlertTestPhase::AwaitTestConfig | AlertTestPhase::AwaitRestore => e is Configured,
        AlertTestPhase::PollAssert(_) | AlertTestPhase::PollDeassert(_) => e is Pin,
        AlertTestPhase::AwaitClear => e is Cleared,
        AlertTestPhase::Done => false,
    }
}

/// The test's read counts stay within their limits.
pub open spec fn alert_test_wf(s: AlertTest) -> bool {
    match s.phase {
        AlertTestPhase::PollAssert(n) => n < ASSERT_POLLS,
        AlertTestPhase::PollDeassert(n) => n < DEASSERT_POLLS,
        _ => true,
    }
}

/// One step of the alert-pin test: configure the test window; read the pin
/// until it asserts, at most thirty times; restore the normal window; read and
/// clear the alert status; read the pin until it deasserts, at most ten times;
/// report. A failed configuration or clearing ends the test; a failed pin read
/// counts as the pin not having changed.
pub open spec fn alert_test_step(s: AlertTest, e: AlertTestEvent) -> (AlertTest, AlertTestAction) {
    let restore = AlertTestAction::Configure(DEFAULT_ALERT_V_MIN_MV, DEFAULT_ALERT_V_MAX_MV);
    let done = AlertTest { phase: AlertTestPhase::Done, ..s };
    match (s.phase, e) {
        (AlertTestPhase::AwaitTestConfig, AlertTestEvent::Configured(ok)) => if ok {
            (AlertTest { phase: AlertTestPhase::PollAssert(0), ..s }, AlertTestAction::ReadPin)
        } else {
            (done, AlertTestAction::Fail(AlertTestFailure::Configure))
        },
        (AlertTestPhase::PollAssert(n), AlertTestEvent::Pin(r)) => if r == Ok::<bool, PeripheralError>(true) {
            (AlertTest { phase: AlertTestPhase::AwaitRestore, asserted: true, ..s }, restore)
        } else if n + 1 < ASSERT_POLLS {
            (AlertTest { phase: AlertTestPhase::PollAssert((n + 1) as u8), ..s }, AlertTestAction::ReadPin)
        } else {
            (AlertTest { phase: AlertTestPhase::AwaitRestore, ..s }, restore)
        },
        (AlertTestPhase::AwaitRestore, AlertTestEvent::Configured(ok)) => if ok {
            (AlertTest { phase: AlertTestPhase::AwaitClear, ..s }, AlertTestAction::Clear)
        } else {
            (done, AlertTestAction::Fail(AlertTestFailure::Restore))
        },
        (AlertTestPhase::AwaitClear, AlertTestEvent::Cleared(r)) => match r {
            Ok(a) => (AlertTest { phase: AlertTestPhase::PollDeassert(0), alerts: a, ..s }, AlertTestAction::ReadPin),
            Err(_) => (done, AlertTestAction::Fail(AlertTestFailure::Clear)),
        },
        (AlertTestPhase::PollDeassert(n), AlertTestEvent::Pin(r)) => {
            let report = |deasserted: bool|
                AlertTestAction::Report {
                    asserted: s.asserted,
                    deasserted,
                    voltage: s.alerts.0,
                    soc: s.alerts.1,
                };
            if r == Ok::<bool, PeripheralError>(false) {
                (done, report(true))
            } else if n + 1 < DEASSERT_POLLS {
                (AlertTest { phase: AlertTestPhase::PollDeassert((n + 1) as u8), ..s }, AlertTestAction::ReadPin)
            } else {
                (done, report(false))
            }
        },
        _ => (s, AlertTestAction::Fail(AlertTestFailure::Configure)),
    }
}

impl AlertTest {
    /// Starts the test: it first asks for the test window.
    pub fn start() -> (r: (AlertTest, AlertTestAction))
        ensures
            r.0 == (AlertTest { phase: AlertTestPhase::AwaitTestConfig, asserted: false, alerts: (false, false) }),
            r.1 == AlertTestAction::Configure(TEST_ALERT_V_MIN_MV, TEST_ALERT_V_MAX_MV),
    {
        (
            AlertTest { phase: AlertTestPhase::AwaitTestConfig, asserted: false, alerts: (false, false) },
            AlertTestAction::Configure(TEST_ALERT_V_MIN_MV, TEST_ALERT_V_MAX_MV),
        )
    }

    /// Takes what the caller did and says what to do next.
    pub fn step(self, e: AlertTestEvent) -> (r: (AlertTest, AlertTestAction))
        requires
            alert_event_fits(self.phase, e),
            alert_test_wf(self),
        ensures
            r == alert_test_step(self, e),
            alert_test_wf(r.0),
    {
        let restore = AlertTestAction::Configure(DEFAULT_ALERT_V_MIN_MV, DEFAULT_ALERT_V_MAX_MV);
        let done = AlertTest { phase: AlertTestPhase::Done, ..self };
        match (self.phase, e) {
            (AlertTestPhase::AwaitTestConfig, AlertTestEvent::Configured(ok)) => if ok {
                (AlertTest { phase: AlertTestPhase::PollAssert(0), ..self }, AlertTestAction::ReadPin)
            } else {
                (done, AlertTestAction::Fail(AlertTestFailure::Configure))
            },
            (AlertTestPhase::PollAssert(n), AlertTestEvent::Pin(r)) => {
                let high = match r {
                    Ok(true) => true,
                    _ => false,
                };
                if high {
                    (AlertTest { phase: AlertTestPhase::AwaitRestore, asserted: true, ..self }, restore)
                } else if n + 1 < ASSERT_POLLS {
                    (AlertTest { phase: AlertTestPhase::PollAssert(n + 1), ..self }, AlertTestAction::ReadPin)
                } else {
                    (AlertTest { phase: AlertTestPhase::AwaitRestore, ..self }, restore)
                }
            },
            (AlertTestPhase::AwaitRestore, AlertTestEvent::Configured(ok)) => if ok {
                (AlertTest { phase: AlertTestPhase::AwaitClear, ..self }, AlertTestAction::Clear)
            } else {
                (done, AlertTestAction::Fail(AlertTestFailure::Restore))
            },
            (AlertTestPhase::AwaitClear, AlertTestEvent::Cleared(r)) => match r {
                Ok(a) => (
                    AlertTest { phase: AlertTestPhase::PollDeassert(0), alerts: a, ..self },
                    AlertTestAction::ReadPin,
                ),
                Err(_) => (done, AlertTestAction::Fail(AlertTestFailure::Clear)),
            },
            (AlertTestPhase::PollDeassert(n), AlertTestEvent::Pin(r)) => {
                let low = match r {
                    Ok(false) => true,
                    _ => false,
                };
                if low {
                    (
                        done,
                        AlertTestAction::Report {
                            asserted: self.asserted,
                            deasserted: true,
                            voltage: self.alerts.0,
                            soc: self.alerts.1,
                        },
                    )
                } else if n + 1 < DEASSERT_POLLS {
                    (AlertTest { phase: AlertTestPhase::PollDeassert(n + 1), ..self }, AlertTestAction::ReadPin)
                } else {
                    (
                        done,
                        AlertTestAction::Report {
                            asserted: self.asserted,
                            deasserted: false,
                            voltage: self.alerts.0,
                            soc: self.alerts.1,
                        },
                    )
                }
            },
            _ => (self, AlertTestAction::Fail(AlertTestFailure::Configure)),
        }
    }
}

/// Every run of the alert-pin test that gets past the test window restores
/// the normal window before it reads the alert status: the only way out of
/// the assert polling is the restore request.
pub proof fn lemma_alert_test_restores(s: AlertTest, e: AlertTestEvent)
    requires
        s.phase is PollAssert,
        alert_event_fits(s.phase, e),
        alert_test_wf(s),
    ensures
        alert_test_step(s, e).0.phase is PollAssert || (alert_test_step(s, e).0.phase == AlertTestPhase::AwaitRestore
            && alert_test_step(s, e).1 == AlertTestAction::Configure(DEFAULT_ALERT_V_MIN_MV, DEFAULT_ALERT_V_MAX_MV)),
{
}

/// Battery subcommands of the command line.
#[derive(Clone, Copy, PartialEq, Eq, Structural, Debug)]
pub enum BatterySubcommand {
    /// Query the battery status.
    Status,
    /// Test the battery alert pin.
    TestAlert,
}

/// The battery subcommand named by `s`.
pub open spec fn spec_battery_sub(s: Seq<char>) -> Option<BatterySubcommand> {
    if s == "status"@ {
        Some(BatterySubcommand::Status)
    } else if s == "test-alert"@ {
        Some(BatterySubcommand::TestAlert)
    } else {
        None
    }
}

impl BatterySubcommand {
    /// Reads `status` or `test-alert`.
    pub fn parse(s: &str) -> (r: Result<BatterySubcommand, &'static str>)
        ensures
            match spec_battery_sub(s@) {
                Some(c) => r == Ok::<BatterySubcommand, &'static str>(c),
                None => r matches Err(e) && e@
                    == "Invalid battery subcommand. Expected: status, test-alert"@,
            },
    {
        if str_eq(s, "status") {
            Ok(BatterySubcommand::Status)
        } else if str_eq(s, "test-alert") {
            Ok(BatterySubcommand::TestAlert)
        } else {
            Err("Invalid battery subcommand. Expected: status, test-alert")
        }
    }
}

/// The battery feature of the system: boot trap and periodic checks.
pub struct BatteryFeatureConfig {
    /// Whether a battery controller listens for commands.
    pub battery_enabled: bool,
}

impl BatteryFeatureConfig {
    /// Creates the feature.
    pub fn new(battery_enabled: bool) -> (r: Self)
        ensures
            r.battery_enabled == battery_enabled,
    {
        BatteryFeatureConfig { battery_enabled }
    }

    /// The battery boot trap holds the system down until the first reading, when
    /// a battery controller is present.
    pub fn default_boot_trap_mask(&self) -> (r: u32)
        ensures
            r == (if self.battery_enabled {
                crate::types::BOOT_TRAP_BATTERY
            } else {
                0
            }),
    {
        if self.battery_enabled {
            crate::types::BOOT_TRAP_BATTERY
        } else {
            0
        }
    }

    /// The commands for the battery controller after a state change: clear the
    /// wake-lock mask, then check every second while the new state supports the
    /// battery, stop periodic checks otherwise; nothing without a controller.
    pub fn on_state_changed(&self, support: DeviceSupport) -> (r: Vec<BatteryCommand>)
        ensures
            r@ == (if !self.battery_enabled {
                Seq::<BatteryCommand>::empty()
            } else {
                seq![
                    BatteryCommand::UpdateWakeLocks(0),
                    BatteryCommand::SetInterval(
                        if support.battery {
                            PeriodicInterval::UpdateMs(1000)
                        } else {
                            PeriodicInterval::Disabled
                        },
                    ),
                ]
            }),
    {
        let mut out: Vec<BatteryCommand> = Vec::new();
        if self.battery_enabled {
            out.push(BatteryCommand::UpdateWakeLocks(0));
            if support.battery {
                out.push(BatteryCommand::SetInterval(PeriodicInterval::UpdateMs(1000)));
            } else {
                out.push(BatteryCommand::SetInterval(PeriodicInterval::Disabled));
            }
        }
        proof {
            if self.battery_enabled {
                assert(out@ =~= seq![
                    BatteryCommand::UpdateWakeLocks(0),
                    BatteryCommand::SetInterval(
                        if support.battery {
                            PeriodicInterval::UpdateMs(1000)
                        } else {
                            PeriodicInterval::Disabled
                        },
                    ),
                ]);
            } else {
                assert(out@ =~= Seq::<BatteryCommand>::empty());
            }
        }
        out
    }

    /// The command forwarding a wake-lock mask to the battery controller.
    pub fn on_wake_locks_changed(&self, wake_locks: u32) -> (r: Option<BatteryCommand>)
        ensures
            r == (if self.battery_enabled {
                Some(BatteryCommand::UpdateWakeLocks(wake_locks))
            } else {
                None
            }),
    {
        if self.battery_enabled {
            Some(BatteryCommand::UpdateWakeLocks(wake_locks))
        } else {
            None
        }
    }

    /// The command forwarding a temperature to the battery controller.
    pub fn on_thermal_update(&self, temp_milli_c: i32) -> (r: Option<BatteryCommand>)
        ensures
            r == (if self.battery_enabled {
                Some(BatteryCommand::UpdateTemperature(temp_milli_c))
            } else {
                None
            }),
    {
        if self.battery_enabled {
            Some(BatteryCommand::UpdateTemperature(temp_milli_c))
        } else {
            None
        }
    }
}

/// A failed fuel gauge never reports a low battery to the system controller: it
/// reports a full charge and a normal state.
pub proof fn lemma_failed_gauge_is_benign(v: BatteryControllerView, e: PeripheralError)
    ensures
        reported_soc(Err(e)) == 100,
        battery_step(v, Err(e)).state == BatteryState::Normal,
{
}

/// A reading under 3.5 V always marks the battery low.
pub proof fn lemma_low_voltage(v: BatteryControllerView, voltage: u32, soc: u8)
    requires
        voltage < LOW_VOLTAGE_MV,
    ensures
        battery_step(v, Ok((voltage, soc))).state == BatteryState::Low,
{
}

/// A reading classifies the battery by its voltage alone: low exactly when it
/// is under 3500 mV, normal from 3500 mV up, whatever the state of charge and
/// the state before; a failed reading counts as normal. Telemetry reports the
/// same class (a failed reading as critical), and a higher voltage never gives
/// a lower class.
pub proof fn lemma_voltage_classes(v: BatteryControllerView, voltage: u32, soc: u8, higher: u32, e: PeripheralError)
    requires
        voltage <= higher,
    ensures
        (battery_step(v, Ok((voltage, soc))).state == BatteryState::Low) == (voltage < 3500),
        (battery_step(v, Ok((voltage, soc))).state == BatteryState::Normal) == (voltage >= 3500),
        battery_step(v, Err(e)).state == BatteryState::Normal,
        telemetry_state_of(Ok((voltage, soc))) == (if voltage < 3500 {
            TelemetryBatteryState::Low
        } else {
            TelemetryBatteryState::Normal
        }),
        telemetry_state_of(Err(e)) == TelemetryBatteryState::Critical,
        battery_step(v, Ok((voltage, soc))).state == BatteryState::Normal ==> battery_step(
            v,
            Ok((higher, soc)),
        ).state == BatteryState::Normal,
{
}

/// A reading is logged when no voltage was logged yet or the voltage moved by
/// at least 10 mV either way since the last logged one. The system controller
/// is sent the reading's state of charge, or 100% when the gauge failed; the
/// reported fuel gauge values are the reading's, or zero when it failed.
pub proof fn lemma_battery_reporting(last: u32, voltage: u32, soc: u8, e: PeripheralError)
    ensures
        voltage_changed(None, voltage),
        voltage_changed(Some(last), voltage) == (voltage >= last + 10 || last >= voltage + 10),
        reported_soc(Ok((voltage, soc))) == soc,
        reported_soc(Err(e)) == 100,
        reading_voltage(Ok((voltage, soc))) == voltage && reading_soc(Ok((voltage, soc))) == soc,
        reading_voltage(Err(e)) == 0 && reading_soc(Err(e)) == 0,
{
}

/// Repeating the same reading logs nothing the second time.
pub proof fn lemma_repeat_reading_quiet(v: BatteryControllerView, reading: Result<(u32, u8), PeripheralError>)
    ensures
        ({
            let v1 = battery_step(v, reading);
            !voltage_changed(v1.last_reported_voltage, reading_voltage(reading))
                && v1.last_reported_state == Some(battery_state_of(reading))
        }),
{
}

} // verus!
