use controller::battery_controller::BatteryController;
use controller::led_controller::{AsyncDelay, LedController, LedDriver, LedEvent, LedCommand};
use controller::model::{
    BatteryState, BatteryStatus, ChargeState, FuelGaugeTelemetry, MotorSpeed, PeripheralError,
    SystemLedState, TelemetryRecord,
};
use controller::motor_controller::{
    CalibrationType, CurrentLimits, Motor, MotorCommand, MotorController, MotorState, NoTick,
    PowerMeasurementMode, PowerSensor, Tickable,
};
use controller::system_controller::SystemOutbox;
use controller::telemetry_controller::{
    BatteryTelemetryClient, LedTelemetryClient, MotorTelemetryClient,
};

struct MockMotor {
    speed: i8,
    should_fail: bool,
}

impl MockMotor {
    fn new() -> Self {
        MockMotor { speed: 0, should_fail: false }
    }
}

impl Motor for MockMotor {
    fn set_speed_result(&self, _speed: MotorSpeed) -> Result<(), PeripheralError> {
        if self.should_fail {
            Err(PeripheralError::DeviceNotAvailable)
        } else {
            Ok(())
        }
    }

    fn after_set_speed(&self, speed: MotorSpeed) -> Self {
        MockMotor { speed: if self.should_fail { self.speed } else { speed.get() }, should_fail: self.should_fail }
    }

    fn stop_result(&self) -> Result<(), PeripheralError> {
        self.set_speed_result(MotorSpeed::zero())
    }

    fn after_stop(&self) -> Self {
        self.after_set_speed(MotorSpeed::zero())
    }

    fn set_speed(&mut self, speed: MotorSpeed) -> Result<(), PeripheralError> {
        let r = self.set_speed_result(speed);
        *self = self.after_set_speed(speed);
        r
    }

    fn stop(&mut self) -> Result<(), PeripheralError> {
        let r = self.stop_result();
        *self = self.after_stop();
        r
    }
}

struct MockCurrentSensor {
    current_ma: i32,
    should_fail: bool,
}

impl MockCurrentSensor {
    fn new(current_ma: i32) -> Self {
        MockCurrentSensor { current_ma, should_fail: false }
    }
}

impl PowerSensor for MockCurrentSensor {
    fn current_result(&self) -> Result<i32, PeripheralError> {
        if self.should_fail {
            Err(PeripheralError::DeviceNotAvailable)
        } else {
            Ok(self.current_ma)
        }
    }

    fn after_read(&self) -> Self {
        MockCurrentSensor { current_ma: self.current_ma, should_fail: self.should_fail }
    }

    fn mode_result(&self, _mode: PowerMeasurementMode) -> Result<(), PeripheralError> {
        Ok(())
    }

    fn after_mode(&self, _mode: PowerMeasurementMode) -> Self {
        self.after_read()
    }

    fn read_current_ma(&mut self) -> Result<i32, PeripheralError> {
        self.current_result()
    }

    fn set_measurement_mode(&mut self, mode: PowerMeasurementMode) -> Result<(), PeripheralError> {
        self.mode_result(mode)
    }
}

fn motor_cal(low: i32, high: i32) -> CalibrationType {
    CalibrationType::MotorCal { current_limits: CurrentLimits { low, high }, max_rpm: 0, rpm_limit: 0 }
}

#[test]
fn test_motor_controller_flow() {
    let motor = MockMotor::new();
    let sensor = MockCurrentSensor::new(150);
    let mut controller = MotorController::new(NoTick::new(motor), sensor);
    let mut client = MotorTelemetryClient::new(false);

    assert_eq!(controller.state(), MotorState::Off);

    controller.set_calibration(motor_cal(80, 800));

    controller.handle_command(MotorCommand::SetSpeed(MotorSpeed::max()), &mut client);
    assert_eq!(controller.state(), MotorState::On);
    assert_eq!(controller.motor.inner.speed, 0);
    controller.tick_motor().unwrap();
    assert_eq!(controller.motor.inner.speed, 1);

    for _ in 0..99 {
        controller.tick_motor().unwrap();
    }
    assert_eq!(controller.motor.inner.speed, 100);

    controller.current_sensor.current_ma = 10;
    controller.update(&mut client).unwrap();
    assert_eq!(controller.state(), MotorState::Off);
    assert_eq!(controller.motor.inner.speed, 0);

    controller.current_sensor.current_ma = 150;
    controller.handle_command(MotorCommand::SetSpeed(MotorSpeed::max()), &mut client);
    assert_eq!(controller.state(), MotorState::On);
    controller.tick_motor().unwrap();
    assert_eq!(controller.motor.inner.speed, 1);
    for _ in 0..99 {
        controller.tick_motor().unwrap();
    }
    assert_eq!(controller.motor.inner.speed, 100);

    controller.current_sensor.current_ma = 900;
    controller.update(&mut client).unwrap();
    assert_eq!(controller.state(), MotorState::Off);
    assert_eq!(controller.motor.inner.speed, 0);
}

struct MockLed {
    color: (u8, u8, u8),
    writes: usize,
    should_fail: bool,
}

impl MockLed {
    fn new() -> Self {
        MockLed { color: (0, 0, 0), writes: 0, should_fail: false }
    }
}

impl LedDriver for MockLed {
    fn color_result(&self, _c: (u8, u8, u8)) -> Result<(), PeripheralError> {
        if self.should_fail {
            Err(PeripheralError::DeviceNotAvailable)
        } else {
            Ok(())
        }
    }

    fn after_color(&self, c: (u8, u8, u8)) -> Self {
        if self.should_fail {
            MockLed { color: self.color, writes: self.writes, should_fail: true }
        } else {
            MockLed { color: c, writes: self.writes + 1, should_fail: false }
        }
    }

    fn set_color(&mut self, r: u8, g: u8, b: u8) -> Result<(), PeripheralError> {
        let res = self.color_result((r, g, b));
        *self = self.after_color((r, g, b));
        res
    }
}

#[test]
fn controller_tests_test_led_controller_flow() {
    let mock_led = MockLed::new();
    let mut controller = LedController::new(mock_led);

    assert_eq!(controller.current_state(), SystemLedState::Off);

    controller.set_pattern(SystemLedState::SolidGreen).unwrap();
    assert_eq!(controller.current_state(), SystemLedState::SolidGreen);
}

#[test]
fn led_controller_test_test_led_controller_flow() {
    let mock_led = MockLed::new();
    let mut controller = LedController::new(mock_led);

    assert_eq!(controller.current_state(), SystemLedState::Off);

    controller.set_pattern(SystemLedState::SolidGreen).unwrap();
    assert_eq!(controller.current_state(), SystemLedState::SolidGreen);
}

#[test]
fn test_motor_controller_sad_cases() {
    let mut motor = MockMotor::new();
    motor.should_fail = true;
    let sensor = MockCurrentSensor::new(150);
    let mut controller = MotorController::new(NoTick::new(motor), sensor);
    controller.set_calibration(motor_cal(80, 800));

    let mut client = MotorTelemetryClient::new(true);
    controller.handle_command(MotorCommand::SetSpeed(MotorSpeed::max()), &mut client);

    let recs = client.take_pending();
    assert!(matches!(recs[0], TelemetryRecord::Motor(_)));

    let res = controller.tick_motor();
    assert!(res.is_err());
    client.report_error(res.unwrap_err());

    let recs = client.take_pending();
    assert!(matches!(recs[0], TelemetryRecord::PeripheralError(_)));

    let motor2 = MockMotor::new();
    let mut sensor2 = MockCurrentSensor::new(150);
    sensor2.should_fail = true;
    let mut controller2 = MotorController::new(NoTick::new(motor2), sensor2);
    controller2.set_calibration(motor_cal(80, 800));
    controller2.handle_command(MotorCommand::SetSpeed(MotorSpeed::max()), &mut MotorTelemetryClient::new(false));

    let mut client2 = MotorTelemetryClient::new(true);
    let res = controller2.update(&mut client2);
    assert!(res.is_err());
}

#[test]
fn test_led_controller_sad_cases() {
    let mut mock_led = MockLed::new();
    mock_led.should_fail = true;
    let mut controller = LedController::new(mock_led);

    let res = controller.set_pattern(SystemLedState::SolidGreen);
    assert!(res.is_err());

    // The run loop: the initial state is reported, then the new pattern, then
    // the failed write.
    let mut controller = LedController::new({
        let mut led = MockLed::new();
        led.should_fail = true;
        led
    });
    let mut client = LedTelemetryClient::new(true);
    let mut delay = AsyncDelay;
    let step = controller.run_start(&mut delay, &mut client);
    let step = controller.on_event(
        step.run,
        LedEvent::Command(LedCommand::State(SystemLedState::SolidGreen)),
        &mut delay,
        &mut client,
    );
    assert!(!step.driver_ok);
    let recs = client.take_pending();
    assert_eq!(recs[0], TelemetryRecord::Led(SystemLedState::Off));
    assert_eq!(recs[1], TelemetryRecord::Led(SystemLedState::SolidGreen));
    assert!(matches!(recs[2], TelemetryRecord::PeripheralError(_)));
}

#[test]
fn test_battery_controller_sad_cases() {
    let mut controller = BatteryController::new_with_system();
    let mut telemetry_client = BatteryTelemetryClient::new(true);

    let mut system_tx = SystemOutbox::new(4);
    let update = controller.update(
        Err(PeripheralError::DeviceNotAvailable),
        Ok(ChargeState::DoneOrStandbyOrUnplugged),
        &mut system_tx,
        &mut telemetry_client,
    );
    assert!(update.result.is_err());

    let recs = telemetry_client.take_pending();
    assert!(matches!(
        recs[0],
        TelemetryRecord::Battery(BatteryStatus::VolTempState(0, _, BatteryState::Critical, _))
    ));
    assert!(matches!(recs[1], TelemetryRecord::FuelGauge(FuelGaugeTelemetry::VolSoc(0, 0))));
    assert!(matches!(recs[2], TelemetryRecord::ChargerState(_)));
    assert!(matches!(recs[3], TelemetryRecord::PeripheralError(_)));
}

struct MockTickableMotor {
    speed: MotorSpeed,
    tick_count: usize,
    should_fail_tick: bool,
}

impl MockTickableMotor {
    fn new() -> Self {
        Self { speed: MotorSpeed::zero(), tick_count: 0, should_fail_tick: false }
    }
}

impl Motor for MockTickableMotor {
    fn set_speed_result(&self, _speed: MotorSpeed) -> Result<(), PeripheralError> {
        Ok(())
    }

    fn after_set_speed(&self, speed: MotorSpeed) -> Self {
        MockTickableMotor { speed, tick_count: self.tick_count, should_fail_tick: self.should_fail_tick }
    }

    fn stop_result(&self) -> Result<(), PeripheralError> {
        Ok(())
    }

    fn after_stop(&self) -> Self {
        self.after_set_speed(MotorSpeed::zero())
    }

    fn set_speed(&mut self, speed: MotorSpeed) -> Result<(), PeripheralError> {
        *self = self.after_set_speed(speed);
        Ok(())
    }

    fn stop(&mut self) -> Result<(), PeripheralError> {
        *self = self.after_stop();
        Ok(())
    }
}

impl Tickable for MockTickableMotor {
    fn tick_result(&self) -> Result<(), PeripheralError> {
        if self.should_fail_tick {
            Err(PeripheralError::Unknown)
        } else {
            Ok(())
        }
    }

    fn after_tick(&self) -> Self {
        MockTickableMotor {
            speed: self.speed,
            tick_count: if self.should_fail_tick { self.tick_count } else { self.tick_count + 1 },
            should_fail_tick: self.should_fail_tick,
        }
    }

    fn tick(&mut self) -> Result<(), PeripheralError> {
        let res = self.tick_result();
        *self = self.after_tick();
        res
    }
}

#[test]
fn test_motor_controller_tickable_vs_notick() {
    let motor = MockTickableMotor::new();
    let sensor = MockCurrentSensor::new(150);
    let mut controller = MotorController::new(motor, sensor);

    assert_eq!(controller.motor.tick_count, 0);
    assert!(controller.tick_motor().is_ok());
    assert_eq!(controller.motor.tick_count, 1);

    controller.motor.should_fail_tick = true;
    assert!(controller.tick_motor().is_err());

    let notick_motor = NoTick::new(MockTickableMotor::new());
    let sensor2 = MockCurrentSensor::new(150);
    let mut controller2 = MotorController::new(notick_motor, sensor2);

    controller2.motor.inner.should_fail_tick = true;
    assert!(controller2.tick_motor().is_ok());
    assert_eq!(controller2.motor.inner.tick_count, 0);
}
