//! Two wheels, each on a stepper fed with delays from a motion profile.
use vstd::prelude::*;
use crate::actuators::stepper::{Stepper, WithAcc, converted_steps, direction_after};
use crate::packet::Color;
use crate::profiles::{Delays, MotionProfile, delays_view};

verus! {

pub struct Drivetrain<MP: MotionProfile> {
    stepper1: Stepper<WithAcc>,
    stepper2: Stepper<WithAcc>,
    /// The profile that every move is ramped with.
    pub profile: MP,
    color: Color,
}

/// A turn of `degrees` as the wheels make it: mirrored on the yellow side.
pub open spec fn oriented(color: Color, degrees: i64) -> int {
    match color {
        Color::Yellow => -degrees,
        Color::Blue => degrees as int,
    }
}

/// What the second wheel is told for a move of `steps`: the opposite when
/// the wheels face each other (a straight drive), the same for a turn.
pub open spec fn second_wheel_steps(steps: i32, inverse: bool) -> i32 {
    if inverse { (-steps) as i32 } else { steps }
}

impl<MP: MotionProfile> Drivetrain<MP> {
    /// The level of the first wheel's direction pin.
    pub closed spec fn dir1(&self) -> bool {
        self.stepper1.dir()
    }

    /// The level of the second wheel's direction pin.
    pub closed spec fn dir2(&self) -> bool {
        self.stepper2.dir()
    }

    /// The profile that every move is ramped with.
    pub closed spec fn ramp_profile(&self) -> MP {
        self.profile
    }

    /// The side the robot plays on.
    pub closed spec fn side(&self) -> Color {
        self.color
    }

    /// A drivetrain on the blue side, with both direction pins low.
    pub fn new(profile: MP) -> (d: Self)
        ensures
            d.ramp_profile() == profile,
            d.side() == Color::Blue,
            d.dir1() == false,
            d.dir2() == false,
    {
        Drivetrain { stepper1: Stepper::new(), stepper2: Stepper::new(), profile, color: Color::Blue }
    }

    /// Sets the side the robot plays on.
    pub fn set_color(&mut self, color: Color)
        ensures
            final(self).side() == color,
            final(self).ramp_profile() == old(self).ramp_profile(),
            final(self).dir1() == old(self).dir1(),
            final(self).dir2() == old(self).dir2(),
    {
        self.color = color;
    }

    /// The side the robot plays on.
    pub fn color(&self) -> (r: Color)
        ensures
            r == self.side(),
    {
        self.color
    }

    /// Whether the first wheel's direction pin is high.
    pub fn dir1_is_high(&self) -> (r: bool)
        ensures
            r == self.dir1(),
    {
        self.stepper1.dir_is_high()
    }

    /// Whether the second wheel's direction pin is high.
    pub fn dir2_is_high(&self) -> (r: bool)
        ensures
            r == self.dir2(),
    {
        self.stepper2.dir_is_high()
    }

    /// The turn the wheels make for a turn of `degrees` on this side.
    pub fn oriented_degrees(&self, degrees: i64) -> (r: i64)
        requires
            degrees != i64::MIN,
        ensures
            r == oriented(self.side(), degrees),
    {
        match self.color {
            Color::Yellow => -degrees,
            Color::Blue => degrees,
        }
    }

    /// Readies a move of `steps` of the first wheel, the second wheel
    /// turning the other way when `inverse`: sets both direction pins and
    /// gives the delays of the move, or `None` for a move of zero steps.
    pub fn step(&mut self, steps: i32, inverse: bool) -> (r: Option<Delays>)
        requires
            steps != i32::MIN,
            steps != 0 ==> old(self).ramp_profile().accepts(converted_steps(steps)->0),
        ensures
            final(self).dir1() == direction_after(old(self).dir1(), steps),
            final(self).dir2() == direction_after(old(self).dir2(), second_wheel_steps(steps, inverse)),
            final(self).ramp_profile() == old(self).ramp_profile(),
            final(self).side() == old(self).side(),
            (r is Some) == (steps != 0),
            r matches Some(d) ==> delays_view(d) == old(self).ramp_profile().profile(converted_steps(steps)->0),
    {
        self.stepper1.update_direction(steps);
        self.stepper2.update_direction(if inverse { -steps } else { steps });
        match Stepper::<WithAcc>::convert_steps(steps) {
            None => None,
            Some(n) => Some(self.profile.delays(n)),
        }
    }
}

} // verus!

verus! {

/// A straight drive turns the two wheels' motors in opposite directions,
/// since they face each other; a turn in place turns them the same way.
pub proof fn lemma_drive_and_turn_directions(high1: bool, high2: bool, steps: i32)
    requires
        steps != 0,
        steps != i32::MIN,
    ensures
        direction_after(high1, steps) != direction_after(high2, second_wheel_steps(steps, true)),
        direction_after(high1, steps) == direction_after(high2, second_wheel_steps(steps, false)),
{
}

/// The yellow side turns the other way from the blue side.
pub proof fn lemma_sides_mirror_turns(degrees: i64)
    ensures
        oriented(Color::Yellow, degrees) == -oriented(Color::Blue, degrees),
        oriented(Color::Blue, degrees) == degrees,
{
}

} // verus!

verus! {

/// A drivetrain move of `steps` (either sign) on a trapezoid profile whose
/// ramps fit in their buffers sends exactly `|steps|` pulses.
pub proof fn lemma_trapezoid_move_sends_every_step(p: crate::profiles::TrapezoidProfile, steps: i32)
    requires
        steps != 0,
        steps != i32::MIN,
        p.accepts(converted_steps(steps)->0),
        crate::profiles::ramp_length(p.start_delay, p.acceleration, converted_steps(steps)->0) <= 256,
    ensures
        crate::profiles::pulse_delays(p.profile(converted_steps(steps)->0), p.start_delay).len()
            == if steps < 0 { -steps } else { steps as int },
{
    crate::profiles::trapezoid::lemma_trapezoid_pulse_count(p, converted_steps(steps)->0);
}

/// A drivetrain move of `steps` (either sign) on an S-curve profile sends
/// exactly `|steps|` pulses.
pub proof fn lemma_scurve_move_sends_every_step(p: crate::profiles::SCurveProfile, steps: i32)
    requires
        steps != 0,
        steps != i32::MIN,
        p.accepts(converted_steps(steps)->0),
    ensures
        crate::profiles::pulse_delays(p.profile(converted_steps(steps)->0), p.start_delay).len()
            == if steps < 0 { -steps } else { steps as int },
{
    crate::profiles::scurve::lemma_scurve_pulse_count(p, converted_steps(steps)->0);
}

} // verus!
