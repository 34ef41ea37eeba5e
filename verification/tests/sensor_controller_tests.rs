use controller::model::{Direction, PeriodicInterval, PeripheralError, SensorReading, SensorTelemetry};
use controller::sensor_controller::{
    ApplyCalibration, ProximitySensor, SensorCommand, SensorController, SensorEvent, SensorResponse,
    SensorWait,
};
use controller::types::SensorMetadata;

struct MockProximitySensor {
    distance_mm: u16,
    should_fail: bool,
    offset_mm: Option<u16>,
}

impl MockProximitySensor {
    fn new(distance_mm: u16) -> Self {
        MockProximitySensor { distance_mm, should_fail: false, offset_mm: None }
    }
}

impl ProximitySensor for MockProximitySensor {
    fn distance_result(&self) -> Result<SensorReading, PeripheralError> {
        if self.should_fail {
            Err(PeripheralError::Unknown)
        } else {
            Ok(SensorReading::Proximity(self.distance_mm))
        }
    }

    fn read_distance_mm(&mut self) -> Result<SensorReading, PeripheralError> {
        self.distance_result()
    }

    fn raw_result(&self) -> Result<(SensorReading, u16), PeripheralError> {
        if self.should_fail {
            Err(PeripheralError::Unknown)
        } else {
            Ok((SensorReading::Proximity(self.distance_mm), 42))
        }
    }

    fn read_raw_distance_and_rate(&mut self) -> Result<(SensorReading, u16), PeripheralError> {
        self.raw_result()
    }
}

impl ApplyCalibration for MockProximitySensor {
    fn apply_calibration(&self, reading: SensorReading) -> Result<SensorReading, &'static str> {
        self.calibrated(reading)
    }

    fn calibrated(&self, reading: SensorReading) -> Result<SensorReading, &'static str> {
        match (self.offset_mm, reading) {
            (Some(o), SensorReading::Proximity(d)) => Ok(SensorReading::Proximity(d.saturating_sub(o))),
            _ => Err("no calibration"),
        }
    }
}

#[test]
fn sensor_controller_tests_test_sensor_controller_flow() {
    let sensor = MockProximitySensor::new(10);
    let mut controller =
        SensorController::new(SensorMetadata { direction: Direction::North }, sensor, 300);

    assert_eq!(controller.latest_distance(), SensorReading::Invalid);
    assert_eq!(
        controller.telemetry(),
        SensorTelemetry::Status(Direction::North, SensorReading::Invalid)
    );
    assert_eq!(controller.direction(), Direction::North);

    controller.update().unwrap();

    assert_eq!(controller.latest_distance(), SensorReading::Proximity(10));
    assert_eq!(
        controller.telemetry(),
        SensorTelemetry::Status(Direction::North, SensorReading::Proximity(10))
    );

    assert!(!controller.is_periodic_enabled());
    controller.handle_command(SensorCommand::SetInterval(PeriodicInterval::UpdateMs(1000)));
    assert!(controller.is_periodic_enabled());
    controller.handle_command(SensorCommand::SetInterval(PeriodicInterval::Disabled));
    assert!(!controller.is_periodic_enabled());
}

#[test]
fn test_sensor_controller_sad_cases() {
    let mut sensor = MockProximitySensor::new(10);
    sensor.should_fail = true;
    let mut controller =
        SensorController::new(SensorMetadata { direction: Direction::North }, sensor, 300);

    let res = controller.update();
    assert!(res.is_err());
}

#[test]
fn calibrated_reading_replaces_raw_one() {
    let mut sensor = MockProximitySensor::new(120);
    sensor.offset_mm = Some(20);
    let mut controller =
        SensorController::new(SensorMetadata { direction: Direction::East }, sensor, 300);
    assert_eq!(controller.update(), Ok(SensorReading::Proximity(100)));
    assert_eq!(controller.latest_data(), 100);
    // The raw read hands back the uncorrected value and keeps the latest one.
    assert_eq!(
        controller.handle_command(SensorCommand::ReadRawSensorsWithSignal),
        SensorResponse::Reading(Ok(SensorReading::Proximity(120)))
    );
    assert_eq!(controller.latest_distance(), SensorReading::Proximity(100));
}

#[test]
fn signalled_read_failures_become_device_not_available() {
    let mut sensor = MockProximitySensor::new(10);
    sensor.should_fail = true;
    let mut controller =
        SensorController::new(SensorMetadata { direction: Direction::West }, sensor, 300);
    assert_eq!(
        controller.handle_command(SensorCommand::ReadSensorsWithSignal),
        SensorResponse::Reading(Err(PeripheralError::DeviceNotAvailable))
    );
    assert_eq!(
        controller.handle_command(SensorCommand::ReadXTalkRawWithSignal),
        SensorResponse::XTalk(Err(PeripheralError::DeviceNotAvailable))
    );
    assert_eq!(
        controller.handle_command(SensorCommand::ReadSensors),
        SensorResponse::Updated(Err(PeripheralError::Unknown))
    );
}

#[test]
fn run_loop_waits_by_the_interval() {
    let mut controller = SensorController::new_with_fusion_and_interrupt(
        SensorMetadata { direction: Direction::North },
        MockProximitySensor::new(250),
        300,
    );
    assert_eq!(controller.next_wait(), SensorWait::CommandOrDataReady { pin: true });
    controller.on_event(SensorEvent::Command(SensorCommand::SetInterval(PeriodicInterval::UpdateMs(200))));
    assert_eq!(controller.next_wait(), SensorWait::CommandOrTimeout(200));
    assert_eq!(
        controller.on_event(SensorEvent::Timeout),
        SensorResponse::Updated(Ok(SensorReading::Proximity(250)))
    );
    let msg = controller.state_manager().notify_upstream(SensorReading::Proximity(250));
    assert_eq!(
        msg,
        Some((SensorMetadata { direction: Direction::North }, SensorReading::Proximity(250)))
    );
}

#[test]
fn signalled_raw_reads_hand_back_the_sensor_results() {
    let sensor = MockProximitySensor::new(321);
    let mut controller =
        SensorController::new(SensorMetadata { direction: Direction::North }, sensor, 300);
    assert_eq!(
        controller.handle_command(SensorCommand::ReadRawSensorsWithSignal),
        SensorResponse::Reading(Ok(SensorReading::Proximity(321)))
    );
    assert_eq!(
        controller.handle_command(SensorCommand::ReadXTalkRawWithSignal),
        SensorResponse::XTalk(Ok((SensorReading::Proximity(321), 42)))
    );
    assert_eq!(controller.latest_distance(), SensorReading::Invalid);
    controller.sensor_mut().should_fail = true;
    assert_eq!(
        controller.handle_command(SensorCommand::ReadXTalkRawWithSignal),
        SensorResponse::XTalk(Err(PeripheralError::DeviceNotAvailable))
    );
    assert_eq!(
        controller.handle_command(SensorCommand::ReadSensorsWithSignal),
        SensorResponse::Reading(Err(PeripheralError::DeviceNotAvailable))
    );
    assert_eq!(
        controller.handle_command(SensorCommand::SetInterval(PeriodicInterval::UpdateMs(500))),
        SensorResponse::Done
    );
}
