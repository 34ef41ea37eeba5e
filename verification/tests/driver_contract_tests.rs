use controller::model::{MotorSpeed, MotorStatus, PeripheralError, SensorReading, TelemetryRecord};
use controller::motor_controller::{
    process_motor_command, CalibrationType, CurrentLimits, MotorCalState, MotorCliCommand,
    MotorCliOutcome, Motor, MotorCommand, MotorController, MotorState, NoTick,
    PowerMeasurementMode, PowerSensor,
};
use controller::telemetry_controller::MotorTelemetryClient;

#[derive(Clone, Copy)]
struct CountingMotor {
    speed: i8,
    stops: u32,
    fail: bool,
}

impl Motor for CountingMotor {
    fn set_speed_result(&self, _speed: MotorSpeed) -> Result<(), PeripheralError> {
        if self.fail {
            Err(PeripheralError::Unknown)
        } else {
            Ok(())
        }
    }

    fn after_set_speed(&self, speed: MotorSpeed) -> Self {
        CountingMotor { speed: speed.get(), ..*self }
    }

    fn stop_result(&self) -> Result<(), PeripheralError> {
        self.set_speed_result(MotorSpeed::zero())
    }

    fn after_stop(&self) -> Self {
        CountingMotor { speed: 0, stops: self.stops + 1, ..*self }
    }

    fn set_speed(&mut self, speed: MotorSpeed) -> Result<(), PeripheralError> {
        let r = self.set_speed_result(speed);
        *self = self.after_set_speed(speed);
        r
    }

    fn stop(&mut self) -> Result<(), PeripheralError> {
        let r = self.stop_result();
        *self = self.after_stop();
        r
    }
}

#[derive(Clone, Copy)]
struct CountingSensor {
    current_ma: i32,
    reads: u32,
    power_downs: u32,
    continuous: u32,
    fail_read: bool,
    fail_mode: bool,
}

impl CountingSensor {
    fn new(current_ma: i32) -> Self {
        CountingSensor { current_ma, reads: 0, power_downs: 0, continuous: 0, fail_read: false, fail_mode: false }
    }
}

impl PowerSensor for CountingSensor {
    fn current_result(&self) -> Result<i32, PeripheralError> {
        if self.fail_read {
            Err(PeripheralError::DeviceNotAvailable)
        } else {
            Ok(self.current_ma)
        }
    }

    fn after_read(&self) -> Self {
        CountingSensor { reads: self.reads + 1, ..*self }
    }

    fn mode_result(&self, _mode: PowerMeasurementMode) -> Result<(), PeripheralError> {
        if self.fail_mode {
            Err(PeripheralError::InvalidConfiguration)
        } else {
            Ok(())
        }
    }

    fn after_mode(&self, mode: PowerMeasurementMode) -> Self {
        match mode {
            PowerMeasurementMode::PowerDown => CountingSensor { power_downs: self.power_downs + 1, ..*self },
            PowerMeasurementMode::Continuous(_, _) => CountingSensor { continuous: self.continuous + 1, ..*self },
        }
    }

    fn read_current_ma(&mut self) -> Result<i32, PeripheralError> {
        let r = self.current_result();
        *self = self.after_read();
        r
    }

    fn set_measurement_mode(&mut self, mode: PowerMeasurementMode) -> Result<(), PeripheralError> {
        let r = self.mode_result(mode);
        *self = self.after_mode(mode);
        r
    }
}

fn motor(fail: bool) -> NoTick<CountingMotor> {
    NoTick::new(CountingMotor { speed: 0, stops: 0, fail })
}

fn calibrated(c: &mut MotorController<NoTick<CountingMotor>, CountingSensor>) {
    c.set_calibration(CalibrationType::MotorCal {
        current_limits: CurrentLimits { low: 80, high: 800 },
        max_rpm: 0,
        rpm_limit: 0,
    });
}

#[test]
fn uncalibrated_start_calls_nothing_and_reports_nothing() {
    let mut c = MotorController::new(motor(false), CountingSensor::new(150));
    let mut client = MotorTelemetryClient::new(true);
    c.handle_command(MotorCommand::SetSpeed(MotorSpeed::new(50).unwrap()), &mut client);
    assert_eq!(c.state(), MotorState::Off);
    assert_eq!(c.current_rpm(), 0);
    assert_eq!(c.current_sensor.continuous, 0);
    assert_eq!(c.motor.inner.stops, 0);
    assert!(client.take_pending().is_empty());
}

#[test]
fn set_speed_leaves_driver_to_ticks() {
    let mut c = MotorController::new(motor(false), CountingSensor::new(150));
    calibrated(&mut c);
    let mut client = MotorTelemetryClient::new(true);
    c.handle_command(MotorCommand::SetSpeed(MotorSpeed::max()), &mut client);
    assert_eq!(c.state(), MotorState::On);
    assert_eq!(c.motor.inner.speed, 0);
    assert_eq!(c.current_sensor.continuous, 1);
    assert_eq!(client.take_pending(), vec![TelemetryRecord::Motor(MotorStatus::Running(MotorSpeed::max()))]);
}

#[test]
fn stop_calls_each_device_once_and_reports_each_failure() {
    let mut s = CountingSensor::new(150);
    s.fail_mode = true;
    let mut c = MotorController::new(motor(true), s);
    let mut client = MotorTelemetryClient::new(true);
    c.handle_command(MotorCommand::Stop, &mut client);
    assert_eq!(c.state(), MotorState::Off);
    assert_eq!(c.motor.inner.stops, 1);
    assert_eq!(c.current_sensor.power_downs, 1);
    assert_eq!(
        client.take_pending(),
        vec![
            TelemetryRecord::PeripheralError(PeripheralError::Unknown),
            TelemetryRecord::PeripheralError(PeripheralError::InvalidConfiguration),
            TelemetryRecord::Motor(MotorStatus::Brake),
        ]
    );
}

#[test]
fn update_stops_on_dry_run_with_measured_current() {
    let mut c = MotorController::new(motor(false), CountingSensor::new(150));
    calibrated(&mut c);
    let mut client = MotorTelemetryClient::new(false);
    c.handle_command(MotorCommand::SetSpeed(MotorSpeed::max()), &mut client);
    for _ in 0..100 {
        c.tick_motor().unwrap();
    }
    assert_eq!(c.motor.inner.speed, 100);
    c.current_sensor.current_ma = 10;
    assert!(c.update(&mut client).is_ok());
    assert_eq!(c.state(), MotorState::Off);
    assert_eq!(c.last_current_ma(), 10);
    assert_eq!(c.motor.inner.speed, 0);
    assert_eq!(c.motor.inner.stops, 1);
    assert_eq!(c.current_sensor.reads, 1);
}

#[test]
fn update_fails_when_the_current_cannot_be_read() {
    let mut s = CountingSensor::new(150);
    s.fail_read = true;
    let mut c = MotorController::new(motor(false), s);
    calibrated(&mut c);
    c.handle_command(MotorCommand::SetSpeed(MotorSpeed::max()), &mut MotorTelemetryClient::new(false));
    let mut client = MotorTelemetryClient::new(true);
    assert_eq!(c.update(&mut client), Err(PeripheralError::DeviceNotAvailable));
    assert_eq!(c.state(), MotorState::On);
    assert!(client.take_pending().is_empty());
}

#[test]
fn tick_stops_at_the_first_failing_driver_call() {
    let mut c = MotorController::new(motor(false), CountingSensor::new(150));
    calibrated(&mut c);
    c.handle_command(MotorCommand::SetSpeed(MotorSpeed::max()), &mut MotorTelemetryClient::new(false));
    c.motor.inner.fail = true;
    assert_eq!(c.tick_motor(), Err(PeripheralError::Unknown));
    assert_eq!(c.motor.inner.speed, 1);
}

#[test]
fn motor_command_line_passes_its_speed_on() {
    let mut c = MotorController::new(motor(false), CountingSensor::new(150));
    assert_eq!(
        process_motor_command(&mut c, true, MotorCliCommand::Speed { speed: 42 }),
        Ok(MotorCliOutcome::Current(150))
    );
    assert_eq!(c.motor.inner.speed, 42);
    assert_eq!(c.current_sensor.reads, 1);
    assert_eq!(
        process_motor_command(&mut c, true, MotorCliCommand::Speed { speed: 101 }),
        Err("Failed to set motor speed")
    );
    c.current_sensor.fail_read = true;
    assert_eq!(
        process_motor_command(&mut c, true, MotorCliCommand::Speed { speed: 10 }),
        Err("Failed to read motor current")
    );
    assert_eq!(process_motor_command(&mut c, true, MotorCliCommand::Stop), Ok(MotorCliOutcome::Stopped));
    assert_eq!(c.motor.inner.stops, 1);
}

#[test]
fn calibrate_needs_the_motor_peripheral() {
    let mut c = MotorController::new(motor(false), CountingSensor::new(150));
    let cmd = MotorCliCommand::Calibrate { state: MotorCalState::Full, max_rpm: Some(3000), rpm_limit: None };
    assert_eq!(process_motor_command(&mut c, false, cmd), Err("Motor peripheral not available"));
    assert_eq!(
        process_motor_command(&mut c, true, cmd),
        Ok(MotorCliOutcome::Calibrate { state: MotorCalState::Full, max_rpm: Some(3000), rpm_limit: None })
    );
    let _ = SensorReading::Invalid;
}
