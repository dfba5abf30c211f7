//! A gripper moved by a servo between an open and a closed angle.
use vstd::prelude::*;
use crate::actuators::servo::{Servo, ServoBuilder, pulse_width};
use crate::config::{
    GRIPPER_ACTUATE_TIME, GRIPPER_MAX_ANGLE, GRIPPER_MAX_PULSE_WIDTH, GRIPPER_MIN_ANGLE,
    GRIPPER_MIN_PULSE_WIDTH, GRIPPER_REFRESH_INTERVAL,
};

verus! {

pub struct Gripper {
    servo: Servo,
}

impl Gripper {
    pub closed spec fn spec_servo(&self) -> Servo {
        self.servo
    }

    /// A gripper on a servo with the gripper's pulse widths and period.
    pub fn new() -> (g: Self)
        ensures
            g.spec_servo().spec_min_pulse_width() == GRIPPER_MIN_PULSE_WIDTH,
            g.spec_servo().spec_max_pulse_width() == GRIPPER_MAX_PULSE_WIDTH,
            g.spec_servo().spec_period() == GRIPPER_REFRESH_INTERVAL,
    {
        Gripper {
            servo: ServoBuilder::new()
                .set_max_pulse_width(GRIPPER_MAX_PULSE_WIDTH)
                .set_min_pulse_width(GRIPPER_MIN_PULSE_WIDTH)
                .set_period(GRIPPER_REFRESH_INTERVAL)
                .build(),
        }
    }

    /// The servo.
    pub fn servo(&self) -> (s: Servo)
        ensures
            s == self.spec_servo(),
    {
        self.servo
    }

    /// The pulse width that opens the gripper.
    pub fn open(&self) -> (r: u64)
        ensures
            r == pulse_width(GRIPPER_MIN_PULSE_WIDTH, GRIPPER_MAX_PULSE_WIDTH, GRIPPER_MIN_ANGLE),
    {
        proof { use_type_invariant(self); }
        self.servo.rotate(GRIPPER_MIN_ANGLE)
    }

    /// The pulse width that closes the gripper.
    pub fn close(&self) -> (r: u64)
        ensures
            r == pulse_width(GRIPPER_MIN_PULSE_WIDTH, GRIPPER_MAX_PULSE_WIDTH, GRIPPER_MAX_ANGLE),
    {
        proof { use_type_invariant(self); }
        self.servo.rotate(GRIPPER_MAX_ANGLE)
    }

    /// How long the servo is driven for one move, in nanoseconds.
    pub fn actuate_time() -> (r: u64)
        ensures
            r == GRIPPER_ACTUATE_TIME,
    {
        GRIPPER_ACTUATE_TIME
    }

    #[verifier::type_invariant]
    spec fn wf(&self) -> bool {
        &&& self.servo.spec_min_pulse_width() == GRIPPER_MIN_PULSE_WIDTH
        &&& self.servo.spec_max_pulse_width() == GRIPPER_MAX_PULSE_WIDTH
    }
}

} // verus!
