use controller::battery_controller::{BatteryController, BatteryControllerError, BatteryState};
use controller::board::{
    boot_reason_from_reset_register, get_filesystem_config, MapFilesystem, MockFlex, FS_PARTITION_END,
    FS_PARTITION_START, TELEMETRY_PARTITION_END, TELEMETRY_PARTITION_START,
};
use controller::led_controller::{
    pattern_color, pattern_plan, BlockingDelay, LedController, LedDriver, LedEvent, LedCommand,
    LedFeatureConfig, LedRun, LedWait,
};
use controller::model::{
    BootReason, ChargeState, Direction, Gesture, PeripheralError, SensorReading, SystemLedState,
    SystemStatus, TelemetryRecord, ThermalStatus,
};
use controller::motor_controller::{MotorLimits, MotorSafetyStatus};
use controller::sensor_controller::{
    cal_point, cal_sample, reading_display, xtalk_distance, xtalk_result, ProximityFeatureConfig,
    ReadingDisplay,
};
use controller::system_controller::{
    SystemCommand, SystemOutbox, get_device_support, plan_activity, plan_alert, plan_battery_action, plan_gesture, plan_proximity,
    plan_tick, PowerOp,
};
use controller::system_feature::{merge_gesture_action, merge_proximity};
use controller::telemetry_controller::{
    BatteryTelemetryClient, TelemetryCounters, ThermalTelemetryClient,
};
use controller::thermal_controller::{temperature_parts, ThermalController};
use controller::types::{
    BatteryStatus, BatteryUpdateAction, BootTrapReason, GestureAction, ProximityAction,
};

struct CountingLed {
    colors: Vec<(u8, u8, u8)>,
}

impl LedDriver for CountingLed {
    fn color_result(&self, _c: (u8, u8, u8)) -> Result<(), PeripheralError> {
        Ok(())
    }

    fn after_color(&self, c: (u8, u8, u8)) -> Self {
        let mut colors = self.colors.clone();
        colors.push(c);
        CountingLed { colors }
    }

    fn set_color(&mut self, r: u8, g: u8, b: u8) -> Result<(), PeripheralError> {
        let res = self.color_result((r, g, b));
        *self = self.after_color((r, g, b));
        res
    }
}

#[test]
fn led_target_colours_scale_with_brightness() {
    assert_eq!(pattern_color(SystemLedState::SolidGreen, 100), (0, 128, 0));
    assert_eq!(pattern_color(SystemLedState::SolidOrange, 50), (64, 32, 0));
    assert_eq!(pattern_color(SystemLedState::BlinksRedFourTimes, 10), (25, 0, 0));
    assert_eq!(pattern_color(SystemLedState::SolidBlue, 0), (0, 0, 0));
}

#[test]
fn fade_from_off_writes_ten_steps_ending_at_target() {
    let mut led = LedController::new(CountingLed { colors: Vec::new() });
    led.set_pattern(SystemLedState::SolidGreen).unwrap();
    assert_eq!(led.current_color(), (0, 128, 0));
    assert_eq!(led.current_state(), SystemLedState::SolidGreen);
}

#[test]
fn blink_patterns_end_dark_and_off() {
    let mut led = LedController::new(CountingLed { colors: Vec::new() });
    led.set_pattern(SystemLedState::BlinksRedFourTimes).unwrap();
    assert_eq!(led.current_color(), (0, 0, 0));
    assert_eq!(led.current_state(), SystemLedState::Off);
    led.set_pattern(SystemLedState::BlinksRedOncePerThirtySeconds).unwrap();
    assert_eq!(led.current_color(), (0, 0, 0));
    assert_eq!(led.current_state(), SystemLedState::Off);
    assert_eq!(pattern_plan(SystemLedState::Off, SystemLedState::BlinksRedFourTimes).len(), 8);
}

#[test]
fn repeating_a_solid_pattern_changes_nothing() {
    let mut led = LedController::new(CountingLed { colors: Vec::new() });
    led.set_pattern(SystemLedState::SolidBlue).unwrap();
    let colour = led.current_color();
    led.set_pattern(SystemLedState::SolidBlue).unwrap();
    assert_eq!(led.current_color(), colour);
}

#[test]
fn brightness_redraws_current_pattern() {
    let mut led = LedController::new(CountingLed { colors: Vec::new() });
    led.set_pattern(SystemLedState::SolidYellow).unwrap();
    led.set_brightness(50).unwrap();
    assert_eq!(led.current_color(), (64, 64, 0));
    assert_eq!(led.brightness(), 50);
}

#[test]
fn slow_blink_toggles_on_timeouts() {
    let mut led = LedController::new(CountingLed { colors: Vec::new() });
    let mut client = controller::telemetry_controller::LedTelemetryClient::new(true);
    let mut delay = BlockingDelay;
    let step = led.run_start(&mut delay, &mut client);
    let step = led.on_event(
        step.run,
        LedEvent::Command(LedCommand::State(SystemLedState::BlinksRedOncePerThirtySeconds)),
        &mut delay,
        &mut client,
    );
    assert_eq!(step.wait, LedWait::CommandOrTimeout(30000));
    let step = led.on_event(step.run, LedEvent::Timeout, &mut delay, &mut client);
    assert_eq!(step.run, LedRun { state: SystemLedState::BlinksRedOncePerThirtySeconds, led_on: true });
    assert_eq!(step.wait, LedWait::CommandOrTimeout(500));
    assert_eq!(led.current_color(), (255, 0, 0));
    let step = led.on_event(step.run, LedEvent::Timeout, &mut delay, &mut client);
    assert_eq!(step.wait, LedWait::CommandOrTimeout(30000));
    assert_eq!(led.current_color(), (0, 0, 0));
}

#[test]
fn led_feature_decisions() {
    let f = LedFeatureConfig::new(true, 80);
    assert_eq!(
        f.on_init(),
        vec![LedCommand::SetBrightness(80), LedCommand::State(SystemLedState::Off)]
    );
    let status = BatteryStatus {
        battery_critical: false,
        charger_connected: true,
        soc_led_state: SystemLedState::SolidGreen,
    };
    let support = get_device_support(SystemStatus::Sleep);
    assert_eq!(
        f.on_state_changed(SystemStatus::Active, SystemStatus::Sleep, support, Some(status), true),
        Some(LedCommand::State(SystemLedState::BlinksRedFourTimes))
    );
    let support = get_device_support(SystemStatus::PowerDown);
    assert_eq!(
        f.on_state_changed(SystemStatus::Sleep, SystemStatus::PowerDown, support, Some(status), false),
        Some(LedCommand::State(SystemLedState::SolidGreen))
    );
    assert_eq!(
        f.on_battery_action(BatteryUpdateAction::ReportSoC, SystemStatus::Sleep, Some(status)),
        None
    );
    assert_eq!(
        f.on_alert_triggered(SystemStatus::Sleep),
        Some(LedCommand::State(SystemLedState::BlinksRedFourTimes))
    );
    assert_eq!(LedFeatureConfig::new(false, 80).on_alert_triggered(SystemStatus::Sleep), None);
}

#[test]
fn check_limits_reports_each_violation() {
    let limits = MotorLimits { min_current_ma: 15, max_current_ma: 800, max_rpm: 3000, rpm_limit: 2500 };
    assert_eq!(limits.check_limits(2600, 100), MotorSafetyStatus::RpmExceeded(2600));
    assert_eq!(limits.check_limits(1000, 10), MotorSafetyStatus::DryRun(10));
    assert_eq!(limits.check_limits(1000, 900), MotorSafetyStatus::Stall(900));
    assert_eq!(limits.check_limits(1000, 100), MotorSafetyStatus::Safe);
}

#[test]
fn thermal_hysteresis_and_critical_alert() {
    let mut t = ThermalController::new_with_shutdown();
    let mut client = ThermalTelemetryClient::new(true);
    let first = t.update(Ok(30000), &mut client);
    assert_eq!(first.send, Some(controller::types::ThermalUpdateAction::ClearBootTrap));
    t.boot_trap_clear_sent();
    t.update(Ok(46000), &mut client);
    assert_eq!(t.state(), controller::types::ThermalState::Overheating);
    t.update(Ok(44000), &mut client);
    assert_eq!(t.state(), controller::types::ThermalState::Overheating);
    t.update(Ok(42000), &mut client);
    assert_eq!(t.state(), controller::types::ThermalState::Normal);
    let alert = t.update(Ok(61000), &mut client);
    assert_eq!(alert.send, Some(controller::types::ThermalUpdateAction::AlertTriggered));
    let recs = client.take_pending();
    assert!(matches!(recs[0], TelemetryRecord::Thermal(ThermalStatus::TempOverheating(30000, false))));
}

#[test]
fn temperature_splits_into_degrees_and_thousandths() {
    assert_eq!(temperature_parts(25345), (25, 345));
    assert_eq!(temperature_parts(-1500), (-1, 500));
}

#[test]
fn battery_low_voltage_and_failed_gauge() {
    let mut b = BatteryController::new();
    let mut client = BatteryTelemetryClient::new(false);
    let mut tx = SystemOutbox::new(4);
    b.update(Ok((3400, 20)), Ok(ChargeState::Charging), &mut tx, &mut client);
    assert_eq!(b.state(), BatteryState::Low);
    let u = b.update(Err(PeripheralError::Unknown), Err(PeripheralError::Unknown), &mut tx, &mut client);
    assert_eq!(b.state(), BatteryState::Normal);
    assert!(u.result.is_err());
    assert!(tx.take_pending().is_empty());
    let mut with_system = BatteryController::new_with_system();
    let u = with_system.update(Err(PeripheralError::Unknown), Ok(ChargeState::Fault), &mut tx, &mut client);
    assert_eq!(u.system_update, Some((100, ChargeState::Fault)));
    assert_eq!(
        tx.take_pending(),
        vec![SystemCommand::BatteryUpdate { state_of_charge: 100, charger_state: ChargeState::Fault }]
    );
}

#[test]
fn battery_full_system_queue_reports_nothing() {
    let mut b = BatteryController::new_with_system();
    let mut client = BatteryTelemetryClient::new(true);
    let mut tx = SystemOutbox::new(0);
    let u = b.update(Ok((3400, 20)), Ok(ChargeState::Charging), &mut tx, &mut client);
    assert_eq!(u.result, Err(BatteryControllerError::SystemChannelSendFailed));
    assert!(!u.log);
    assert_eq!(b.state(), BatteryState::Low);
    assert!(client.take_pending().is_empty());
    assert!(tx.take_pending().is_empty());
    let mut tx = SystemOutbox::new(1);
    let u = b.update(Ok((3900, 60)), Ok(ChargeState::Charging), &mut tx, &mut client);
    assert!(u.result.is_ok());
    assert!(u.log);
    assert_eq!(client.take_pending().len(), 3);
}

#[test]
fn telemetry_counters_count_per_category() {
    let mut c = TelemetryCounters::default();
    c.record(&TelemetryRecord::Led(SystemLedState::Off));
    c.record(&TelemetryRecord::Led(SystemLedState::SolidBlue));
    c.record(&TelemetryRecord::FlashTelemetry(7));
    assert_eq!(c.total(), 3);
    let top = c.top_categories();
    assert_eq!(top[0].1, 2);
    assert_eq!(top.len(), 2);
    c.reset();
    assert_eq!(c.total(), 0);
}

#[test]
fn proximity_presence_drives_wake_locks() {
    let mut f = ProximityFeatureConfig::new(3, 20, 100, 300, GestureAction::TogglePower, true);
    let (g, a) = f.on_proximity_update(
        Direction::North,
        SensorReading::Proximity(250),
        SystemStatus::Active,
        Some(Gesture::ProximityDetected),
    );
    assert_eq!(g, Some(Gesture::ProximityDetected));
    assert_eq!(a, ProximityAction::AcquireWakeLock);
    let (_, a) = f.on_proximity_update(Direction::North, SensorReading::Proximity(260), SystemStatus::Active, None);
    assert_eq!(a, ProximityAction::NoAction);
    let (g, a) = f.on_proximity_update(
        Direction::North,
        SensorReading::Invalid,
        SystemStatus::Active,
        Some(Gesture::ProximityNotDetected),
    );
    assert_eq!(g, None);
    assert_eq!(a, ProximityAction::ReleaseWakeLock);
    let (_, a) = f.on_proximity_update(Direction::East, SensorReading::Proximity(10), SystemStatus::Sleep, None);
    assert_eq!(a, ProximityAction::WakeSystem);
    assert_eq!(f.map_gesture(Gesture::DualLongPress, SystemStatus::Active), GestureAction::TogglePower);
    assert_eq!(f.on_state_changed(SystemStatus::Sleep, SystemStatus::Active).len(), 3);
    assert_eq!(f.telemetry_client.take_pending().len(), 4);
}

#[test]
fn calibration_sampling_and_points() {
    let attempts = vec![
        None,
        Some(SensorReading::Proximity(950)),
        Some(SensorReading::Proximity(80)),
        Some(SensorReading::Proximity(70)),
    ];
    assert_eq!(cal_sample(&attempts), SensorReading::Proximity(80));
    assert_eq!(cal_sample(&vec![Some(SensorReading::Proximity(950))]), SensorReading::Proximity(950));
    assert_eq!(cal_sample(&vec![None, None]), SensorReading::Invalid);
    assert_eq!(cal_point(SensorReading::Proximity(80), false), Ok(80));
    assert_eq!(cal_point(SensorReading::Proximity(950), false), Err("Target too far for cover calibration"));
    assert_eq!(cal_point(SensorReading::Proximity(950), true), Err("Target too far for 100mm calibration"));
    assert_eq!(cal_point(SensorReading::Invalid, true), Err("Sensor disconnected or invalid reading"));
}

#[test]
fn crosstalk_formula() {
    assert_eq!(xtalk_result(SensorReading::Proximity(60), 40, 100), Ok(125));
    assert_eq!(xtalk_result(SensorReading::Proximity(50), 256, 100), Ok(1000));
    assert_eq!(
        xtalk_result(SensorReading::Proximity(120), 256, 100),
        Err("Measured distance must be less than calibration distance")
    );
    assert_eq!(xtalk_result(SensorReading::Invalid, 1, 100), Err("Sensor disconnected or invalid reading"));
    assert_eq!(xtalk_distance("150"), 150);
    assert_eq!(xtalk_distance("telemetry"), 100);
}

#[test]
fn reading_display_cases() {
    assert_eq!(reading_display(Err(PeripheralError::Unknown), SensorReading::Invalid, 0), ReadingDisplay::Failed);
    assert_eq!(reading_display(Ok(SensorReading::Invalid), SensorReading::Invalid, 0), ReadingDisplay::Invalid);
    assert_eq!(
        reading_display(Ok(SensorReading::Proximity(100)), SensorReading::Proximity(100), 0),
        ReadingDisplay::Plain(100)
    );
    assert_eq!(
        reading_display(Ok(SensorReading::Proximity(100)), SensorReading::Proximity(90), 0),
        ReadingDisplay::Calibrated(100, 90)
    );
    assert_eq!(
        reading_display(Ok(SensorReading::Proximity(100)), SensorReading::Invalid, 7),
        ReadingDisplay::WithXTalk(100, 100, 7)
    );
}

#[test]
fn system_plans() {
    assert_eq!(
        plan_activity(SystemStatus::Sleep, false, false),
        vec![PowerOp::ResetInactivity, PowerOp::SetStatus(SystemStatus::Active)]
    );
    assert_eq!(plan_activity(SystemStatus::Sleep, true, false), vec![PowerOp::ResetInactivity]);
    assert_eq!(
        plan_alert(SystemStatus::Active),
        vec![PowerOp::ClearWakeLocks, PowerOp::SetStatus(SystemStatus::Sleep)]
    );
    assert!(plan_alert(SystemStatus::Sleep).is_empty());
    assert!(plan_proximity(ProximityAction::WakeSystem, false, true).is_empty());
    assert_eq!(
        plan_battery_action(BatteryUpdateAction::ClearBootTrap),
        vec![
            PowerOp::ClearBootTrap(BootTrapReason::Battery),
            PowerOp::SetStatusIfUntrapped(SystemStatus::Active)
        ]
    );
    assert_eq!(
        plan_gesture(GestureAction::TogglePower, Gesture::DualLongPress, SystemStatus::PowerDown, true),
        vec![PowerOp::LogGesture(Gesture::DualLongPress)]
    );
    assert_eq!(
        plan_gesture(GestureAction::TogglePower, Gesture::DualLongPress, SystemStatus::Active, false),
        vec![
            PowerOp::LogGesture(Gesture::DualLongPress),
            PowerOp::ClearWakeLocks,
            PowerOp::SetStatus(SystemStatus::PowerDown)
        ]
    );
    let d = plan_tick(true, 30000, 30, true, 0);
    assert!(d.sleep && d.log_boot_traps);
    assert_eq!(d.countdown, 5);
    let d = plan_tick(true, 29999, 30, true, 3);
    assert!(!d.sleep && !d.log_boot_traps);
    assert_eq!(d.countdown, 2);
    let support = get_device_support(SystemStatus::Sleep);
    assert!(!support.motor && support.led && support.battery && support.thermal && !support.proximity);
}

#[test]
fn feature_answers_merge() {
    assert_eq!(
        merge_proximity(&vec![
            (Some(Gesture::ProximityDetected), ProximityAction::AcquireWakeLock),
            (None, ProximityAction::NoAction),
            (Some(Gesture::DualLongPress), ProximityAction::NoAction),
        ]),
        (Some(Gesture::DualLongPress), ProximityAction::AcquireWakeLock)
    );
    assert_eq!(
        merge_gesture_action(&vec![GestureAction::NoAction, GestureAction::TogglePower]),
        GestureAction::TogglePower
    );
}

#[test]
fn board_layout_and_boot_reason() {
    assert_eq!(
        get_filesystem_config().partition,
        MapFilesystem { start: FS_PARTITION_START, end: FS_PARTITION_END }
    );
    assert!(FS_PARTITION_END <= TELEMETRY_PARTITION_START);
    assert!(TELEMETRY_PARTITION_START < TELEMETRY_PARTITION_END);
    assert_eq!(boot_reason_from_reset_register(1 << 8 | 1 << 20), BootReason::PowerOn);
    assert_eq!(boot_reason_from_reset_register(1 << 20), BootReason::Watchdog);
    assert_eq!(boot_reason_from_reset_register(1 << 16), BootReason::SoftwareReset);
    assert_eq!(boot_reason_from_reset_register(0), BootReason::Unknown);
    let mut pin = MockFlex::new();
    assert!(!pin.is_high());
    pin.set_high();
    assert!(pin.is_high());
    pin.set_low();
    assert!(!pin.is_high());
}

#[test]
fn held_dual_press_becomes_long_after_five_seconds() {
    let mut d = controller::gesture_detector::GestureDetector::new(300);
    assert_eq!(d.update(Gesture::Proximity(1000, 100, 100), 1_000_000), Some(Gesture::ProximityDetected));
    assert_eq!(d.update(Gesture::Proximity(1000, 120, 90), 3_000_000), Some(Gesture::ProximityDetected));
    assert_eq!(d.press_time_ms(), 2000);
    assert_eq!(d.update(Gesture::Proximity(1000, 50, 50), 6_000_000), Some(Gesture::DualLongPress));
    assert_eq!(d.press_time_ms(), 5000);
}

#[test]
fn toggling_power_twice_without_charger_ends_active() {
    let once = plan_gesture(GestureAction::TogglePower, Gesture::DualLongPress, SystemStatus::Sleep, false);
    assert_eq!(once.last(), Some(&PowerOp::SetStatus(SystemStatus::PowerDown)));
    let twice = plan_gesture(GestureAction::TogglePower, Gesture::DualLongPress, SystemStatus::PowerDown, false);
    assert_eq!(twice.last(), Some(&PowerOp::SetStatus(SystemStatus::Active)));
}

#[test]
fn boot_trap_clearance_is_sent_once() {
    let mut t = ThermalController::new_with_shutdown();
    let mut client = ThermalTelemetryClient::new(false);
    let first = t.update(Err(PeripheralError::Unknown), &mut client);
    assert_eq!(first.send, Some(controller::types::ThermalUpdateAction::ClearBootTrap));
    t.boot_trap_clear_sent();
    assert_eq!(t.update(Ok(30000), &mut client).send, None);
    assert_eq!(t.update(Err(PeripheralError::Unknown), &mut client).send, None);
}
