//! Tuning constants of the robot.
use vstd::prelude::*;

verus! {

/// The delay that a motion profile starts its ramp with.
pub const STEPPER_DEFAULT_START_DELAY: u32 = 100;
/// How much a motion profile lowers the delay per pulse.
pub const STEPPER_DEFAULT_ACCELERATION: u32 = 1;
/// How much an S-curve profile changes the acceleration per pulse.
pub const STEPPER_DEFAULT_JERK: u32 = 1;

} // verus!

verus! {

/// The step rate of the extension.
pub const EXTENSION_FREQUENCY: u32 = 700;
/// The step rate of the extension while it looks for its home switch.
pub const EXTENSION_HOME_FREQUENCY: u32 = 400;
/// The PIO instructions per step of the homing program.
pub const EXTENSION_HOME_INSTRUCTION_COUNT: u32 = 66;
/// The steps the extension moves back out from its home switch.
pub const EXTENSION_HOME_OFFSET: i32 = 120;
/// Where a pull leaves the extension, in steps from home.
pub const EXTENSION_PULL_OFFSET: i32 = 2;

/// Servo defaults, in nanoseconds.
pub const SERVO_DEFAULT_MIN_PULSE_WIDTH: u64 = 1_000_000;
pub const SERVO_DEFAULT_MAX_PULSE_WIDTH: u64 = 2_000_000;
pub const SERVO_DEFAULT_REFRESH_INTERVAL: u64 = 20_000_000;
/// The angle, in degrees, between the shortest and the longest pulse.
pub const SERVO_MAX_DEGREE_ROTATION: u64 = 180;

/// Gripper servo settings, in nanoseconds and degrees.
pub const GRIPPER_MIN_PULSE_WIDTH: u64 = 320_000;
pub const GRIPPER_MAX_PULSE_WIDTH: u64 = 1_200_000;
pub const GRIPPER_REFRESH_INTERVAL: u64 = 1_786_000;
pub const GRIPPER_MIN_ANGLE: u64 = 50;
pub const GRIPPER_MAX_ANGLE: u64 = 153;
/// How long the gripper takes to move between its angles, in nanoseconds:
/// 45 ms per 60 degrees.
pub const GRIPPER_ACTUATE_TIME: u64 = 45_000_000 * (GRIPPER_MAX_ANGLE - GRIPPER_MIN_ANGLE) / 60;

} // verus!
