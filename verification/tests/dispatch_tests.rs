use controller::battery_controller::{
    boot_alert_config, AlertTest, AlertTestAction, AlertTestEvent, AlertTestFailure, AlertTestPhase,
    BatteryController,
};
use controller::filesystem_controller::{
    dir_listing_lines, format_plan, listing_partition, plan_fs_command, resolve_partition,
    FilesystemSubcommand, FormatTarget, NamedPartition, PartitionKind, ScratchBuffer,
};
use controller::model::{
    ChargeState, Direction, Gesture, PeripheralError, SystemLedState, SystemStatus, TelemetryRecord,
};
use controller::system_controller::{
    FeatureAnswers, FeatureNotice, PowerOp, SystemCommand, SystemDispatcher, SystemOutbox,
};
use controller::telemetry_controller::BatteryTelemetryClient;
use controller::types::{
    BatteryStatus, BatteryUpdateAction, DeviceSupport, GestureAction, ProximityAction,
};

fn table() -> Vec<NamedPartition> {
    vec![
        NamedPartition { name: "default", kind: PartitionKind::MapFs, start: 0x1C_0000, end: 0x1D_0000 },
        NamedPartition { name: "telemetry", kind: PartitionKind::QueueFs, start: 0x1D_0000, end: 0x20_0000 },
    ]
}

#[test]
fn format_targets_resolve_their_partitions() {
    let t = table();
    let fs = format_plan(&t, FormatTarget::Fs, None).unwrap();
    assert_eq!((fs.start, fs.end, fs.reboot), (0x1C_0000, 0x1D_0000, true));
    assert_eq!(fs.announce, "\r\nFormatting filesystem partition...");
    let tel = format_plan(&t, FormatTarget::Telemetry, None).unwrap();
    assert_eq!((tel.start, tel.end, tel.reboot), (0x1D_0000, 0x20_0000, false));
    assert_eq!(tel.done, "Formatting successful! Telemetry cleared.");
    let all = format_plan(&t, FormatTarget::All, None).unwrap();
    assert_eq!((all.start, all.end, all.reboot), (0x1C_0000, 0x20_0000, true));
    assert_eq!(format_plan(&t, FormatTarget::Fs, Some("telemetry")), Err("Expected a map filesystem partition"));
    assert_eq!(
        format_plan(&t, FormatTarget::Telemetry, Some("default")),
        Err("Expected a telemetry/queue filesystem partition")
    );
    assert_eq!(
        format_plan(&t, FormatTarget::Fs, Some("nvs")),
        Err("Requested flash partition not found or none registered")
    );
    assert_eq!(
        format_plan(&t[1..].to_vec(), FormatTarget::All, None),
        Err("Requested flash partition not found or none registered")
    );
}

#[test]
fn listing_needs_a_map_partition() {
    let t = table();
    assert_eq!(listing_partition(&t, None).unwrap().kind, PartitionKind::MapFs);
    assert_eq!(listing_partition(&t, Some("telemetry")), Err("Requested partition is not a map filesystem"));
    assert_eq!(resolve_partition(&Vec::new(), None), Err("Requested flash partition not found or none registered"));
    let mut buf = ScratchBuffer::new(2048);
    assert_eq!(plan_fs_command(&mut buf, None, None), Err("Missing fs subcommand"));
    assert_eq!(
        plan_fs_command(&mut buf, Some(FilesystemSubcommand::Format), None),
        Ok((FilesystemSubcommand::Format, FormatTarget::Fs))
    );
    assert_eq!(
        plan_fs_command(&mut buf, Some(FilesystemSubcommand::Ls), None),
        Err("Filesystem scratch buffer is already locked")
    );
    buf.unlock();
}

#[test]
fn directory_listing_keeps_non_empty_lines() {
    assert_eq!(
        dir_listing_lines(b"motor_cal.cbor\n\nsensor_cal.cbor\nlast"),
        Some(vec![b"motor_cal.cbor".to_vec(), b"sensor_cal.cbor".to_vec(), b"last".to_vec()])
    );
    assert_eq!(dir_listing_lines(b"\n\n"), Some(vec![]));
    assert_eq!(dir_listing_lines(&[0x66, 0xFF, 0x0A]), None);
}

#[test]
fn battery_boot_after_failed_reading_clears_the_trap() {
    assert_eq!(boot_alert_config().low_mv, 3000);
    let mut b = BatteryController::new_with_system();
    let mut tx = SystemOutbox::new(4);
    let mut client = BatteryTelemetryClient::new(true);
    let out = b.boot(
        Err(PeripheralError::Unknown),
        Err(PeripheralError::DeviceNotAvailable),
        Ok(ChargeState::Charging),
        &mut tx,
        &mut client,
    );
    assert!(!out.fatal);
    assert!(out.periodic_off);
    assert_eq!(
        tx.take_pending(),
        vec![
            SystemCommand::BatteryUpdate { state_of_charge: 100, charger_state: ChargeState::Charging },
            SystemCommand::BatteryAction(BatteryUpdateAction::ClearBootTrap),
        ]
    );
    let recs = client.take_pending();
    assert_eq!(recs[0], TelemetryRecord::PeripheralError(PeripheralError::Unknown));
    assert_eq!(recs[4], TelemetryRecord::PeripheralError(PeripheralError::DeviceNotAvailable));
    assert_eq!(recs[5], TelemetryRecord::PeripheralError(PeripheralError::DeviceNotAvailable));
    assert_eq!(recs[6], TelemetryRecord::PeripheralError(PeripheralError::InvalidConfiguration));
    assert_eq!(recs.len(), 7);
}

#[test]
fn battery_boot_with_full_system_queue_is_fatal() {
    let mut b = BatteryController::new_with_system();
    let mut tx = SystemOutbox::new(0);
    let mut client = BatteryTelemetryClient::new(true);
    let out = b.boot(Ok(()), Ok((3900, 80)), Ok(ChargeState::Charging), &mut tx, &mut client);
    assert!(out.fatal);
    assert!(client.take_pending().is_empty());
}

#[test]
fn critical_update_reports_an_undelivered_send() {
    let b = BatteryController::new_with_system();
    let mut tx = SystemOutbox::new(0);
    let mut client = BatteryTelemetryClient::new(true);
    b.send_critical(&mut tx, &mut client);
    assert_eq!(client.take_pending(), vec![TelemetryRecord::PeripheralError(PeripheralError::Unknown)]);
}

fn answers() -> FeatureAnswers {
    FeatureAnswers { proximity: (None, ProximityAction::NoAction), battery: None, gesture: GestureAction::NoAction }
}

#[test]
fn dispatcher_follows_a_proximity_gesture_and_stores_the_battery_status() {
    let mut d = SystemDispatcher::new();
    let mut a = answers();
    a.proximity = (Some(Gesture::DualLongPress), ProximityAction::WakeSystem);
    let step = d.handle_command(
        SystemCommand::ProximityUpdate { direction: Direction::East, distance_mm: 40 },
        SystemStatus::Sleep,
        false,
        a,
    );
    assert_eq!(step.ops, vec![PowerOp::SetStatus(SystemStatus::Active)]);
    assert_eq!(step.follow_up, Some(SystemCommand::Gesture(Gesture::DualLongPress)));

    let st = BatteryStatus { battery_critical: false, charger_connected: true, soc_led_state: SystemLedState::SolidGreen };
    let mut a = answers();
    a.battery = Some((Some(BatteryUpdateAction::ReportSoC), st));
    let step = d.handle_command(
        SystemCommand::BatteryUpdate { state_of_charge: 80, charger_state: ChargeState::Charging },
        SystemStatus::Active,
        false,
        a,
    );
    assert_eq!(d.battery_status, Some(st));
    assert_eq!(step.follow_up, Some(SystemCommand::BatteryAction(BatteryUpdateAction::ReportSoC)));

    let mut a = answers();
    a.gesture = GestureAction::TogglePower;
    let step = d.handle_command(SystemCommand::Gesture(Gesture::DualLongPress), SystemStatus::PowerDown, false, a);
    assert_eq!(step.ops, vec![PowerOp::LogGesture(Gesture::DualLongPress)]);

    let step = d.handle_command(
        SystemCommand::StateChanged { from: SystemStatus::Sleep, to: SystemStatus::Active },
        SystemStatus::Active,
        true,
        answers(),
    );
    assert_eq!(step.ops, vec![PowerOp::ResetOnWake]);
    assert_eq!(
        step.notices,
        vec![FeatureNotice::StateChanged {
            from: SystemStatus::Sleep,
            to: SystemStatus::Active,
            support: DeviceSupport { motor: true, battery: true, proximity: true, led: true, thermal: true },
            battery_status: Some(st),
            thermal_critical: true,
        }]
    );
}

#[test]
fn alert_pin_test_runs_its_steps() {
    let (s, a) = AlertTest::start();
    assert_eq!(a, AlertTestAction::Configure(4500, 5000));
    let (s, a) = s.step(AlertTestEvent::Configured(true));
    assert_eq!(a, AlertTestAction::ReadPin);
    let (s, a) = s.step(AlertTestEvent::Pin(Ok(false)));
    assert_eq!(a, AlertTestAction::ReadPin);
    let (s, a) = s.step(AlertTestEvent::Pin(Ok(true)));
    assert_eq!(a, AlertTestAction::Configure(3000, 4200));
    let (s, a) = s.step(AlertTestEvent::Configured(true));
    assert_eq!(a, AlertTestAction::Clear);
    let (s, a) = s.step(AlertTestEvent::Cleared(Ok((true, false))));
    assert_eq!(a, AlertTestAction::ReadPin);
    let (s, a) = s.step(AlertTestEvent::Pin(Ok(false)));
    assert_eq!(a, AlertTestAction::Report { asserted: true, deasserted: true, voltage: true, soc: false });
    assert_eq!(s.phase, AlertTestPhase::Done);

    let (s, _) = AlertTest::start();
    let (mut s, _) = s.step(AlertTestEvent::Configured(true));
    let mut last = AlertTestAction::ReadPin;
    let mut reads = 0;
    while last == AlertTestAction::ReadPin {
        let (n, a) = s.step(AlertTestEvent::Pin(Err(PeripheralError::Unknown)));
        s = n;
        last = a;
        reads += 1;
    }
    assert_eq!(reads, 30);
    assert_eq!(last, AlertTestAction::Configure(3000, 4200));
    let (_, a) = s.step(AlertTestEvent::Configured(false));
    assert_eq!(a, AlertTestAction::Fail(AlertTestFailure::Restore));
    assert_eq!(AlertTestFailure::Restore.message(), "Failed to restore alert thresholds");
}
