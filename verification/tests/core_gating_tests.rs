use controller::model::{Direction, MotorSpeed, PeripheralError, SensorReading};
use controller::motor_controller::{
    Motor, MotorCommand, MotorController, NoTick, PowerMeasurementMode, PowerSensor,
};
use controller::sensor_controller::{ApplyCalibration, ProximitySensor, SensorController};
use controller::telemetry_controller::MotorTelemetryClient;
use controller::types::SensorMetadata;

struct MockMotor {
    speed: i8,
}

impl Motor for MockMotor {
    fn set_speed_result(&self, _speed: MotorSpeed) -> Result<(), PeripheralError> {
        Ok(())
    }

    fn after_set_speed(&self, speed: MotorSpeed) -> Self {
        MockMotor { speed: speed.get() }
    }

    fn stop_result(&self) -> Result<(), PeripheralError> {
        Ok(())
    }

    fn after_stop(&self) -> Self {
        MockMotor { speed: 0 }
    }

    fn set_speed(&mut self, speed: MotorSpeed) -> Result<(), PeripheralError> {
        *self = self.after_set_speed(speed);
        Ok(())
    }

    fn stop(&mut self) -> Result<(), PeripheralError> {
        *self = self.after_stop();
        Ok(())
    }
}

struct DummyCurrentSensor;

impl PowerSensor for DummyCurrentSensor {
    fn current_result(&self) -> Result<i32, PeripheralError> {
        Ok(0)
    }

    fn after_read(&self) -> Self {
        DummyCurrentSensor
    }

    fn mode_result(&self, _mode: PowerMeasurementMode) -> Result<(), PeripheralError> {
        Ok(())
    }

    fn after_mode(&self, _mode: PowerMeasurementMode) -> Self {
        DummyCurrentSensor
    }

    fn read_current_ma(&mut self) -> Result<i32, PeripheralError> {
        self.current_result()
    }

    fn set_measurement_mode(&mut self, mode: PowerMeasurementMode) -> Result<(), PeripheralError> {
        self.mode_result(mode)
    }
}

struct MockProximitySensor {
    distance_mm: u16,
}

impl ProximitySensor for MockProximitySensor {
    fn distance_result(&self) -> Result<SensorReading, PeripheralError> {
        Ok(SensorReading::Proximity(self.distance_mm))
    }

    fn read_distance_mm(&mut self) -> Result<SensorReading, PeripheralError> {
        self.distance_result()
    }

    fn raw_result(&self) -> Result<(SensorReading, u16), PeripheralError> {
        Ok((SensorReading::Proximity(self.distance_mm), 0))
    }

    fn read_raw_distance_and_rate(&mut self) -> Result<(SensorReading, u16), PeripheralError> {
        self.raw_result()
    }
}

impl ApplyCalibration for MockProximitySensor {
    fn calibrated(&self, _reading: SensorReading) -> Result<SensorReading, &'static str> {
        Err("not calibrated")
    }

    fn apply_calibration(&self, reading: SensorReading) -> Result<SensorReading, &'static str> {
        self.calibrated(reading)
    }
}

#[test]
fn test_core_gating_motor_compiles() {
    let mut motor_ctrl = MotorController::new(NoTick::new(MockMotor { speed: 0 }), DummyCurrentSensor);

    let speed = MotorSpeed::new(50).unwrap();
    motor_ctrl.handle_command(MotorCommand::SetSpeed(speed), &mut MotorTelemetryClient::new(false));

    assert_eq!(motor_ctrl.current_rpm(), 0);
}

#[test]
fn test_core_gating_sensor_compiles() {
    let mock_tof = MockProximitySensor { distance_mm: 500 };
    let mut sensor_ctrl =
        SensorController::new(SensorMetadata { direction: Direction::North }, mock_tof, 300);

    assert_eq!(sensor_ctrl.latest_data(), 1000);
    let update_res = sensor_ctrl.update();
    assert!(update_res.is_ok());
    assert_eq!(sensor_ctrl.latest_data(), 500);
}

#[test]
fn test_feature_conditional_compilation() {
    // The library has no core-placement features: both parts run from flash.
    let motor_in_ram = false;
    let sensors_in_ram = false;
    println!(
        "Core gating test: motor-core={}, sensors-core={}",
        motor_in_ram, sensors_in_ram
    );
}
