use controller::gesture_detector::GestureDetector;
use controller::model::Gesture;

#[test]
fn test_gesture_detector_debounce() {
    let mut detector = GestureDetector::new(100);

    assert_eq!(
        detector.update(Gesture::Proximity(1000, 1000, 1000), 1_000_000),
        Some(Gesture::ProximityNotDetected)
    );
    assert_eq!(detector.press_time_ms(), 0);

    assert_eq!(
        detector.update(Gesture::Proximity(1000, 1000, 150), 2_000_000),
        Some(Gesture::ProximityDetected)
    );
    assert_eq!(detector.press_time_ms(), 0);

    assert_eq!(
        detector.update(Gesture::Proximity(1000, 50, 50), 4_000_000),
        Some(Gesture::ProximityDetected)
    );
    assert_eq!(detector.press_time_ms(), 0);

    assert_eq!(
        detector.update(Gesture::Proximity(1000, 50, 50), 6_000_000),
        Some(Gesture::ProximityDetected)
    );
    assert_eq!(detector.press_time_ms(), 2000);

    assert_eq!(
        detector.update(Gesture::Proximity(1000, 50, 120), 7_000_000),
        Some(Gesture::ProximityDetected)
    );
    assert_eq!(detector.press_time_ms(), 0);

    assert_eq!(
        detector.update(Gesture::Proximity(1000, 50, 50), 10_000_000),
        Some(Gesture::ProximityDetected)
    );
    assert_eq!(detector.press_time_ms(), 0);

    assert_eq!(
        detector.update(Gesture::Proximity(1000, 50, 50), 13_000_000),
        Some(Gesture::ProximityDetected)
    );
    assert_eq!(detector.press_time_ms(), 3000);

    assert_eq!(
        detector.update(Gesture::Proximity(1000, 50, 50), 15_000_000),
        Some(Gesture::DualLongPress)
    );
    assert_eq!(detector.press_time_ms(), 5000);

    assert_eq!(detector.update(Gesture::DualLongPress, 16_000_000), None);
}

#[test]
fn reset_forgets_a_press_in_progress() {
    let mut detector = GestureDetector::new(100);
    detector.update(Gesture::Proximity(1000, 50, 50), 1_000_000);
    detector.update(Gesture::Proximity(1000, 50, 50), 3_000_000);
    assert_eq!(detector.press_time_ms(), 2000);
    detector.reset();
    assert_eq!(detector.press_time_ms(), 0);
    assert_eq!(
        detector.update(Gesture::Proximity(1000, 50, 50), 7_000_000),
        Some(Gesture::ProximityDetected)
    );
    assert_eq!(detector.press_time_ms(), 0);
}

#[test]
fn releasing_a_side_restarts_the_long_press() {
    let mut detector = GestureDetector::new(100);
    detector.update(Gesture::Proximity(1000, 50, 50), 0);
    detector.update(Gesture::Proximity(1000, 500, 50), 4_000_000);
    detector.update(Gesture::Proximity(1000, 50, 50), 4_500_000);
    assert_eq!(
        detector.update(Gesture::Proximity(1000, 50, 50), 9_000_000),
        Some(Gesture::ProximityDetected)
    );
    assert_eq!(
        detector.update(Gesture::Proximity(1000, 50, 50), 9_500_000),
        Some(Gesture::DualLongPress)
    );
}
