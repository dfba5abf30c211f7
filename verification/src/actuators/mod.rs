//! The logic of the robot's actuators.
pub mod stepper;
pub mod drivetrain;
pub mod extension;
pub mod gripper;
pub mod servo;
