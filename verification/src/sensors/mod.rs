//! The arithmetic of the robot's sensors.
pub mod ultrasonic;
