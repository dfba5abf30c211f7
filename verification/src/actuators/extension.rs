//! A linear extension on a stepper, homed against a limit switch.
use vstd::prelude::*;
use crate::actuators::stepper::{NoAcc, Stepper, converted_steps, direction_after};
use crate::config::{
    EXTENSION_FREQUENCY, EXTENSION_HOME_FREQUENCY, EXTENSION_HOME_INSTRUCTION_COUNT,
    EXTENSION_HOME_OFFSET, EXTENSION_PULL_OFFSET,
};

verus! {

pub struct Extension {
    stepper: Stepper<NoAcc>,
    max_steps: i32,
}

/// The stroke measured by homing: the homing program counts its register
/// down from zero once per step until the switch opens, so it reports the
/// two's complement of the number of steps; the stroke leaves room for the
/// offset back from the switch.
pub open spec fn stroke_from_count(count: u32) -> i32 {
    ((u32::MAX - count + 1) as i32 - EXTENSION_HOME_OFFSET) as i32
}

impl Extension {
    /// The steps from a pulled-in extension to a pushed-out one.
    pub closed spec fn stroke(&self) -> i32 {
        self.max_steps
    }

    /// The level of the direction pin.
    pub closed spec fn dir(&self) -> bool {
        self.stepper.dir()
    }

    /// An extension that has not been homed yet: its stroke is zero.
    pub fn new() -> (e: Self)
        ensures
            e.stroke() == 0,
            e.dir() == false,
    {
        Extension { stepper: Stepper::new(), max_steps: 0 }
    }

    /// The stroke.
    pub fn max_steps(&self) -> (r: i32)
        ensures
            r == self.stroke(),
    {
        self.max_steps
    }

    /// Whether the direction pin is high.
    pub fn dir_is_high(&self) -> (r: bool)
        ensures
            r == self.dir(),
    {
        self.stepper.dir_is_high()
    }

    /// The instruction rate of the state machine for `frequency` steps per
    /// second.
    pub fn set_frequency(&self, frequency: u32) -> (r: u32)
        requires
            frequency * 65 <= u32::MAX,
        ensures
            r == frequency * 65,
    {
        Stepper::<NoAcc>::pio_frequency(frequency)
    }

    /// The instruction rate of the state machine at its usual speed.
    pub fn default_frequency() -> (r: u32)
        ensures
            r == EXTENSION_FREQUENCY * 65,
    {
        Stepper::<NoAcc>::pio_frequency(EXTENSION_FREQUENCY)
    }

    /// The instruction rate of the homing program.
    pub fn home_frequency() -> (r: u32)
        ensures
            r == EXTENSION_HOME_FREQUENCY * EXTENSION_HOME_INSTRUCTION_COUNT,
    {
        EXTENSION_HOME_FREQUENCY * EXTENSION_HOME_INSTRUCTION_COUNT
    }

    /// Readies a push out by the whole stroke.
    pub fn push(&mut self) -> (r: Option<u32>)
        requires
            old(self).stroke() != i32::MIN,
        ensures
            final(self).stroke() == old(self).stroke(),
            final(self).dir() == direction_after(old(self).dir(), old(self).stroke()),
            r == converted_steps(old(self).stroke()),
    {
        self.stepper.prepare_step(self.max_steps)
    }

    /// Readies a pull back in, to the pull offset from home.
    pub fn pull(&mut self) -> (r: Option<u32>)
        requires
            EXTENSION_PULL_OFFSET - old(self).stroke() > i32::MIN,
            EXTENSION_PULL_OFFSET - old(self).stroke() <= i32::MAX,
        ensures
            final(self).stroke() == old(self).stroke(),
            final(self).dir() == direction_after(old(self).dir(), (EXTENSION_PULL_OFFSET - old(self).stroke()) as i32),
            r == converted_steps((EXTENSION_PULL_OFFSET - old(self).stroke()) as i32),
    {
        self.stepper.prepare_step(EXTENSION_PULL_OFFSET - self.max_steps)
    }

    /// Takes the count reported by the homing program, records the stroke,
    /// and readies the move back out from the switch by the home offset.
    pub fn finish_homing(&mut self, count: u32) -> (r: Option<u32>)
        requires
            count != 0,
            (u32::MAX - count + 1) as i32 - EXTENSION_HOME_OFFSET >= i32::MIN,
        ensures
            final(self).stroke() == stroke_from_count(count),
            final(self).dir() == true,
            r == converted_steps(EXTENSION_HOME_OFFSET),
    {
        self.max_steps = (u32::MAX - count + 1) as i32 - EXTENSION_HOME_OFFSET;
        self.stepper.prepare_step(EXTENSION_HOME_OFFSET)
    }
}

} // verus!

verus! {

/// Homing measures the stroke: when the switch opens after `k` steps, the
/// program reports the count `0 - k` (wrapping), and the stroke becomes `k`
/// less the home offset.
pub proof fn lemma_homing_measures_stroke(k: u32)
    requires
        1 <= k <= i32::MAX,
    ensures
        stroke_from_count((0 - k + 0x1_0000_0000) as u32) == k - EXTENSION_HOME_OFFSET,
{
}

} // verus!
