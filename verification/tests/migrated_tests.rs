use controller::filesystem_controller::ScratchBuffer;
use controller::gesture_detector::GestureDetector;
use controller::model::{ChargeState, Direction, Gesture, PeripheralError, SensorReading, SystemStatus};
use controller::motor_controller::{
    parse_motor_cli, MotorCalState, MotorCalibration, MotorCliCommand,
};
use controller::sensor_controller::{
    plan_sensor_cli, PendingCommand, ProximityCalibration, ProximityFeatureConfig, SensorSubcommand,
};
use controller::system_controller::{
    FeatureAnswers, PowerOp, SystemCommand, SystemDispatcher, SystemSubcommand,
};
use controller::thermal_controller::ThermalController;
use controller::telemetry_controller::ThermalTelemetryClient;
use controller::types::{GestureAction, ProximityAction, SensorDirection, ThermalUpdateAction};

#[test]
fn test_fs_buffer_guard_locking() {
    let mut buf = ScratchBuffer::new(128);
    assert_eq!(buf.lock(), Ok(()));
    assert_eq!(buf.lock(), Err("Filesystem scratch buffer is already locked"));
    buf.unlock();
    assert_eq!(buf.lock(), Ok(()));
    let mut unconfigured = ScratchBuffer::new(0);
    assert_eq!(unconfigured.lock(), Err("Filesystem scratch buffer is not configured"));
}

#[test]
fn test_crash_command_parsing() {
    assert_eq!(SystemSubcommand::parse("crash"), Ok(SystemSubcommand::Crash));
}

#[test]
fn test_stop_command_parsing() {
    assert_eq!(parse_motor_cli(Some("stop"), None, None, None), Ok(MotorCliCommand::Stop));
}

#[test]
fn test_cal_near_command_parsing() {
    assert_eq!(SensorSubcommand::parse("cal_near"), Ok(SensorSubcommand::CalNear));
    assert!(matches!(
        PendingCommand::parse(SensorSubcommand::CalNear, Some("north"), None),
        Ok(PendingCommand::CalNear { direction: SensorDirection::North, .. })
    ));
}

#[test]
fn test_cal_far_command_parsing() {
    assert_eq!(SensorSubcommand::parse("cal_far"), Ok(SensorSubcommand::CalFar));
    assert!(matches!(
        PendingCommand::parse(SensorSubcommand::CalFar, Some("east"), None),
        Ok(PendingCommand::CalFar { direction: SensorDirection::East, .. })
    ));
}

#[test]
fn test_cal_motor_command_parsing() {
    assert_eq!(
        parse_motor_cli(Some("calibrate"), Some("empty"), None, None),
        Ok(MotorCliCommand::Calibrate { state: MotorCalState::Empty, max_rpm: None, rpm_limit: None })
    );
    assert_eq!(
        parse_motor_cli(Some("calibrate"), Some("empty"), Some("3000"), None),
        Ok(MotorCliCommand::Calibrate { state: MotorCalState::Empty, max_rpm: Some(3000), rpm_limit: None })
    );
    assert_eq!(
        parse_motor_cli(Some("calibrate"), Some("empty"), Some("3000"), Some("2500")),
        Ok(MotorCliCommand::Calibrate { state: MotorCalState::Empty, max_rpm: Some(3000), rpm_limit: Some(2500) })
    );
    assert_eq!(
        parse_motor_cli(Some("calibrate"), Some("overload"), None, None),
        Ok(MotorCliCommand::Calibrate { state: MotorCalState::Overload, max_rpm: None, rpm_limit: None })
    );
}

/// Proximity updates acquire and release the wake lock through the dispatcher:
/// the wake-lock count is the number of acquisitions minus releases.
#[test]
fn test_proximity_wake_lock_behavior() {
    let mut detector = GestureDetector::new(20);
    let mut feature = ProximityFeatureConfig::new(3, 20, 100, 300, GestureAction::TogglePower, false);
    let mut system = SystemDispatcher::new();
    let mut wake_locks: i32 = 0;
    for (mm, t) in [(50u16, 1_000_000u64), (400, 2_000_000)] {
        let detected = detector.update(Gesture::Proximity(mm, 1000, 1000), t);
        let answer = feature.on_proximity_update(Direction::North, SensorReading::Proximity(mm), SystemStatus::Active, detected);
        let step = system.handle_command(
            SystemCommand::ProximityUpdate { direction: Direction::North, distance_mm: mm },
            SystemStatus::Active,
            false,
            FeatureAnswers { proximity: answer, battery: None, gesture: GestureAction::NoAction },
        );
        for op in step.ops {
            match op {
                PowerOp::AcquireWakeLock => wake_locks += 1,
                PowerOp::ReleaseWakeLock => wake_locks -= 1,
                _ => {}
            }
        }
        if mm == 50 {
            assert_eq!(wake_locks, 1);
        }
    }
    assert_eq!(wake_locks, 0);
    let _ = ChargeState::Charging;
}

#[test]
fn sensor_command_line_checks_in_order() {
    let mut buf = ScratchBuffer::new(64);
    assert_eq!(plan_sensor_cli(&mut buf, None, Some("north"), None).map(|_| ()), Err("Missing sensor subcommand"));
    assert!(plan_sensor_cli(&mut buf, Some(SensorSubcommand::CalNear), None, None).is_err());
    assert!(buf.lock().is_ok());
    buf.unlock();
    assert!(matches!(
        plan_sensor_cli(&mut buf, Some(SensorSubcommand::CalNear), Some("west"), None),
        Ok(PendingCommand::CalNear { direction: SensorDirection::West, .. })
    ));
    assert_eq!(
        plan_sensor_cli(&mut buf, Some(SensorSubcommand::Status), None, None).map(|_| ()),
        Err("Filesystem scratch buffer is already locked")
    );
    let mut none = ScratchBuffer::new(0);
    assert_eq!(
        plan_sensor_cli(&mut none, Some(SensorSubcommand::Status), None, None).map(|_| ()),
        Err("Filesystem scratch buffer is not configured")
    );
}

#[test]
fn detector_press_survives_other_inputs_and_clock_going_back() {
    let mut d = GestureDetector::new(300);
    assert_eq!(d.update(Gesture::Proximity(1000, 100, 100), 10_000_000), Some(Gesture::ProximityDetected));
    assert_eq!(d.update(Gesture::DualLongPress, 11_000_000), None);
    assert_eq!(d.update(Gesture::Proximity(1000, 100, 100), 9_000_000), Some(Gesture::ProximityDetected));
    assert_eq!(d.press_time_ms(), 0);
    assert_eq!(d.update(Gesture::Proximity(1000, 100, 100), 16_000_000), Some(Gesture::DualLongPress));
    d.reset();
    assert_eq!(d.press_time_ms(), 0);
    assert_eq!(d.update(Gesture::Proximity(1000, 100, 100), 17_000_000), Some(Gesture::ProximityDetected));
}

#[test]
fn first_non_critical_reading_clears_the_boot_trap_once() {
    let mut t = ThermalController::new_with_shutdown();
    let mut client = ThermalTelemetryClient::new(false);
    assert_eq!(t.update(Ok(70_000), &mut client).send, Some(ThermalUpdateAction::AlertTriggered));
    assert_eq!(t.update(Ok(30_000), &mut client).send, Some(ThermalUpdateAction::ClearBootTrap));
    t.boot_trap_clear_sent();
    assert_eq!(t.update(Err(PeripheralError::Unknown), &mut client).send, None);
    assert_eq!(t.update(Ok(70_000), &mut client).send, Some(ThermalUpdateAction::AlertTriggered));
}

#[test]
fn calibration_records_change_one_entry() {
    let c = ProximityCalibration::empty().record_point(SensorDirection::East, false, 42);
    let c = c.record_point(SensorDirection::East, true, 120).record_xtalk(SensorDirection::West, 7);
    assert_eq!((c.east.low, c.east.high), (42, 120));
    assert_eq!((c.north.low, c.west.high), (0, 0));
    assert_eq!((c.xtalk_m_mcps.west, c.xtalk_m_mcps.north), (7, 0));
    let m = MotorCalibration::empty().record(MotorCalState::Full, 310, Some(3000), None);
    let m = m.record(MotorCalState::Empty, 90, None, Some(2500));
    assert_eq!((m.low_ma, m.mid_ma, m.high_ma, m.overload_ma), (90, 0, 310, 0));
    assert_eq!((m.max_rpm, m.rpm_limit), (Some(3000), Some(2500)));
}
