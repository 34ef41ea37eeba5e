use controller::battery_controller::BatterySubcommand;
use controller::led_controller::{plan_led_cli, LedCliAction, LedSubcommand};
use controller::model::SystemLedState;
use controller::motor_controller::{parse_motor_cli, MotorCalState, MotorCliCommand};
use controller::parse::{parse_i8, parse_u16, parse_u32, parse_u8, parse_usize};
use controller::sensor_controller::{PendingCommand, SensorSubcommand};
use controller::system_controller::{plan_system_cli, SystemSubcommand};
use controller::thermal_controller::ThermalSubcommand;
use controller::types::SensorDirection;

#[test]
fn numbers_parse_as_str_parse_does() {
    assert_eq!(parse_u8("255"), Some(255));
    assert_eq!(parse_u8("256"), None);
    assert_eq!(parse_u8("+7"), Some(7));
    assert_eq!(parse_u8(""), None);
    assert_eq!(parse_i8("-128"), Some(-128));
    assert_eq!(parse_i8("-129"), None);
    assert_eq!(parse_u16("65535"), Some(65535));
    assert_eq!(parse_u32("4294967296"), None);
    assert_eq!(parse_usize("12a"), None);
}

#[test]
fn motor_command_lines() {
    assert_eq!(parse_motor_cli(Some("speed"), Some("42"), None, None), Ok(MotorCliCommand::Speed { speed: 42 }));
    assert_eq!(parse_motor_cli(Some("stop"), None, None, None), Ok(MotorCliCommand::Stop));
    assert_eq!(
        parse_motor_cli(Some("calibrate"), Some("empty"), Some("3000"), Some("2500")),
        Ok(MotorCliCommand::Calibrate { state: MotorCalState::Empty, max_rpm: Some(3000), rpm_limit: Some(2500) })
    );
    assert_eq!(
        parse_motor_cli(Some("calibrate"), Some("overload"), None, None),
        Ok(MotorCliCommand::Calibrate { state: MotorCalState::Overload, max_rpm: None, rpm_limit: None })
    );
    assert_eq!(parse_motor_cli(Some("speed"), None, None, None), Err("Missing speed parameter"));
    assert_eq!(parse_motor_cli(Some("speed"), Some("fast"), None, None), Err("Invalid speed parameter"));
    assert_eq!(parse_motor_cli(Some("calibrate"), None, None, None), Err("Missing calibration state"));
    assert_eq!(
        parse_motor_cli(Some("calibrate"), Some("half"), None, None),
        Err("Invalid calibration state. Expected: empty, water_100ml, full, overload")
    );
    assert_eq!(
        parse_motor_cli(Some("spin"), None, None, None),
        Err("Invalid motor subcommand. Expected: speed, stop, calibrate")
    );
}

#[test]
fn led_command_lines() {
    assert_eq!(LedSubcommand::parse("blink-four"), Ok(LedSubcommand::BlinkFour));
    assert_eq!(
        LedSubcommand::parse("purple"),
        Err("off, green, blue, yellow, orange, blink-four, blink-slow, brightness")
    );
    assert_eq!(plan_led_cli(Some(LedSubcommand::Brightness), Some("40")), Ok(LedCliAction::SetBrightness(40)));
    assert_eq!(
        plan_led_cli(Some(LedSubcommand::Green), Some("30")),
        Ok(LedCliAction::SetPattern { brightness: Some(30), pattern: SystemLedState::SolidGreen })
    );
    assert_eq!(
        plan_led_cli(Some(LedSubcommand::BlinkSlow), None),
        Ok(LedCliAction::SetPattern { brightness: None, pattern: SystemLedState::BlinksRedOncePerThirtySeconds })
    );
    assert_eq!(
        plan_led_cli(None, None),
        Err("Missing LED subcommand. Expected: off, green, blue, yellow, orange, blink-four, blink-slow, brightness")
    );
    assert_eq!(
        plan_led_cli(Some(LedSubcommand::Brightness), None),
        Err("Missing brightness value (expected 0..100)")
    );
    assert_eq!(
        plan_led_cli(Some(LedSubcommand::Brightness), Some("bright")),
        Err("Invalid brightness format (expected 0..100)")
    );
    assert_eq!(
        plan_led_cli(Some(LedSubcommand::Off), Some("101")),
        Err("Brightness must be between 0 and 100")
    );
}

#[test]
fn sensor_command_lines() {
    assert_eq!(SensorSubcommand::parse("cal_near"), Ok(SensorSubcommand::CalNear));
    assert_eq!(
        SensorSubcommand::parse("cal"),
        Err("Invalid sensor subcommand. Expected: status, cal_near, cal_far, cal_xtalk")
    );
    assert_eq!(SensorDirection::from_arg("east"), Ok(SensorDirection::East));
    assert_eq!(SensorDirection::from_arg("south"), Err("one of 'north', 'east', or 'west'"));

    assert!(matches!(PendingCommand::parse(SensorSubcommand::Status, None, None), Ok(PendingCommand::Status(1))));
    assert!(matches!(PendingCommand::parse(SensorSubcommand::Status, Some("5"), None), Ok(PendingCommand::Status(5))));
    assert!(matches!(
        PendingCommand::parse(SensorSubcommand::Status, Some("x"), None),
        Err("Invalid number of readings")
    ));

    let near = PendingCommand::parse(SensorSubcommand::CalNear, Some("north"), None).unwrap();
    assert!(matches!(near, PendingCommand::CalNear { direction: SensorDirection::North, .. }));
    assert_eq!(near.parameter(), Some("telemetry"));

    let far = PendingCommand::parse(SensorSubcommand::CalFar, Some("west"), Some("calib")).unwrap();
    assert_eq!(far.parameter(), Some("calib"));

    let xtalk = PendingCommand::parse(SensorSubcommand::CalXTalk, Some("east"), None).unwrap();
    assert_eq!(xtalk.parameter(), Some("100"));

    assert!(matches!(
        PendingCommand::parse(SensorSubcommand::CalNear, None, None),
        Err("Missing direction parameter")
    ));
    assert!(matches!(
        PendingCommand::parse(SensorSubcommand::CalFar, Some("up"), None),
        Err("Invalid direction. Expected: north, east, west")
    ));
    assert!(matches!(
        PendingCommand::parse(SensorSubcommand::CalNear, Some("north"), Some("a_partition_name_too_long")),
        Err("Partition name too long")
    ));
    assert!(matches!(
        PendingCommand::parse(SensorSubcommand::CalXTalk, Some("north"), Some("12345678901234567")),
        Err("Parameter too long")
    ));
    // Sixteen bytes fit exactly; a two-byte character pushes seventeen over.
    assert!(PendingCommand::parse(SensorSubcommand::CalNear, Some("north"), Some("abcdefghijklmnop")).is_ok());
    assert!(PendingCommand::parse(SensorSubcommand::CalNear, Some("north"), Some("abcdefghijklmnoé")).is_err());
}

#[test]
fn other_subcommands() {
    assert_eq!(BatterySubcommand::parse("test-alert"), Ok(BatterySubcommand::TestAlert));
    assert_eq!(
        BatterySubcommand::parse("x"),
        Err("Invalid battery subcommand. Expected: status, test-alert")
    );
    assert_eq!(ThermalSubcommand::parse("mcu"), Ok(ThermalSubcommand::Mcu));
    assert_eq!(SystemSubcommand::parse("crash"), Ok(SystemSubcommand::Crash));
    assert_eq!(
        SystemSubcommand::parse("reboot"),
        Err("Invalid system subcommand. Expected: activity, crash")
    );
    assert_eq!(plan_system_cli(None), Err("Missing system subcommand"));
    assert_eq!(plan_system_cli(Some(SystemSubcommand::Activity)), Ok(SystemSubcommand::Activity));
}
