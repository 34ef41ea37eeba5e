//! Verified control logic for a battery-powered cat water fountain with
//! proximity sensing: motor ramping and safety limits, thermal and battery
//! supervision, LED patterns, proximity sensors and gestures, the system's
//! power decisions, telemetry filtering and the command lines of the shell.

pub mod battery_controller;
pub mod board;
pub mod filesystem_controller;
pub mod fountain_controller;
pub mod gesture_detector;
pub mod led_controller;
pub mod model;
pub mod motor_controller;
pub mod parse;
pub mod sensor_controller;
pub mod state_machine;
pub mod system_controller;
pub mod system_feature;
pub mod telemetry_controller;
pub mod thermal_controller;
pub mod types;
