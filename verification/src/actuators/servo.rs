//! A hobby servo driven by PWM pulses: the pulse width sets the angle.
//! Durations are in nanoseconds.
use vstd::prelude::*;
use crate::config::{
    SERVO_DEFAULT_MAX_PULSE_WIDTH, SERVO_DEFAULT_MIN_PULSE_WIDTH, SERVO_DEFAULT_REFRESH_INTERVAL,
    SERVO_MAX_DEGREE_ROTATION,
};

verus! {

/// The settings of a servo before it is built.
#[derive(Debug, Copy, Clone, PartialEq, Eq, Structural)]
pub struct ServoBuilder {
    period: u64,
    min_pulse_width: u64,
    max_pulse_width: u64,
}

/// A built servo: its PWM period and its range of pulse widths.
#[derive(Debug, Copy, Clone, PartialEq, Eq, Structural)]
pub struct Servo {
    period: u64,
    min_pulse_width: u64,
    max_pulse_width: u64,
}

/// The pulse width for `degree` degrees: the shortest pulse plus a whole
/// number of nanoseconds per degree, capped at the longest pulse.
pub open spec fn pulse_width(min_pulse_width: u64, max_pulse_width: u64, degree: u64) -> int {
    let per_degree = (max_pulse_width - min_pulse_width) / (SERVO_MAX_DEGREE_ROTATION as int);
    let width = degree * per_degree + min_pulse_width;
    if max_pulse_width < width { max_pulse_width as int } else { width }
}

impl ServoBuilder {
    pub closed spec fn spec_period(&self) -> u64 {
        self.period
    }

    pub closed spec fn spec_min_pulse_width(&self) -> u64 {
        self.min_pulse_width
    }

    pub closed spec fn spec_max_pulse_width(&self) -> u64 {
        self.max_pulse_width
    }

    /// The default settings: a 20 ms period and pulses of 1 to 2 ms.
    pub fn new() -> (b: Self)
        ensures
            b.spec_period() == SERVO_DEFAULT_REFRESH_INTERVAL,
            b.spec_min_pulse_width() == SERVO_DEFAULT_MIN_PULSE_WIDTH,
            b.spec_max_pulse_width() == SERVO_DEFAULT_MAX_PULSE_WIDTH,
    {
        ServoBuilder {
            period: SERVO_DEFAULT_REFRESH_INTERVAL,
            min_pulse_width: SERVO_DEFAULT_MIN_PULSE_WIDTH,
            max_pulse_width: SERVO_DEFAULT_MAX_PULSE_WIDTH,
        }
    }

    pub fn set_period(self, duration: u64) -> (b: Self)
        ensures
            b.spec_period() == duration,
            b.spec_min_pulse_width() == self.spec_min_pulse_width(),
            b.spec_max_pulse_width() == self.spec_max_pulse_width(),
    {
        ServoBuilder { period: duration, ..self }
    }

    pub fn set_min_pulse_width(self, duration: u64) -> (b: Self)
        ensures
            b.spec_period() == self.spec_period(),
            b.spec_min_pulse_width() == duration,
            b.spec_max_pulse_width() == self.spec_max_pulse_width(),
    {
        ServoBuilder { min_pulse_width: duration, ..self }
    }

    pub fn set_max_pulse_width(self, duration: u64) -> (b: Self)
        ensures
            b.spec_period() == self.spec_period(),
            b.spec_min_pulse_width() == self.spec_min_pulse_width(),
            b.spec_max_pulse_width() == duration,
    {
        ServoBuilder { max_pulse_width: duration, ..self }
    }

    /// The servo with these settings.
    pub fn build(self) -> (s: Servo)
        ensures
            s.spec_period() == self.spec_period(),
            s.spec_min_pulse_width() == self.spec_min_pulse_width(),
            s.spec_max_pulse_width() == self.spec_max_pulse_width(),
    {
        Servo {
            period: self.period,
            min_pulse_width: self.min_pulse_width,
            max_pulse_width: self.max_pulse_width,
        }
    }
}

impl Servo {
    pub closed spec fn spec_period(&self) -> u64 {
        self.period
    }

    pub closed spec fn spec_min_pulse_width(&self) -> u64 {
        self.min_pulse_width
    }

    pub closed spec fn spec_max_pulse_width(&self) -> u64 {
        self.max_pulse_width
    }

    /// The PWM period.
    pub fn period(&self) -> (r: u64)
        ensures
            r == self.spec_period(),
    {
        self.period
    }

    /// Whether `rotate(degree)` is defined: the longest pulse is not shorter
    /// than the shortest, and the uncapped width fits in a `u64`.
    pub open spec fn rotation_fits(&self, degree: u64) -> bool {
        &&& self.spec_min_pulse_width() <= self.spec_max_pulse_width()
        &&& degree * ((self.spec_max_pulse_width() - self.spec_min_pulse_width()) / (SERVO_MAX_DEGREE_ROTATION as int))
                + self.spec_min_pulse_width() <= u64::MAX
    }

    /// The pulse width that turns the servo to `degree` degrees.
    pub fn rotate(&self, degree: u64) -> (r: u64)
        requires
            self.rotation_fits(degree),
        ensures
            r == pulse_width(self.spec_min_pulse_width(), self.spec_max_pulse_width(), degree),
    {
        let degree_per_nano_second = (self.max_pulse_width - self.min_pulse_width) / SERVO_MAX_DEGREE_ROTATION;
        assert(0 <= degree * degree_per_nano_second) by (nonlinear_arith)
            requires degree_per_nano_second >= 0, degree >= 0;
        let duration = degree * degree_per_nano_second + self.min_pulse_width;
        if self.max_pulse_width < duration {
            self.max_pulse_width
        } else {
            duration
        }
    }
}

/// A pulse never leaves the servo's range, and a larger angle never gives a
/// shorter pulse.
pub proof fn lemma_pulse_width_in_range(min_pulse_width: u64, max_pulse_width: u64, a: u64, b: u64)
    requires
        min_pulse_width <= max_pulse_width,
        a <= b,
    ensures
        min_pulse_width <= pulse_width(min_pulse_width, max_pulse_width, a) <= max_pulse_width,
        pulse_width(min_pulse_width, max_pulse_width, a) <= pulse_width(min_pulse_width, max_pulse_width, b),
{
    let per_degree = (max_pulse_width - min_pulse_width) / (SERVO_MAX_DEGREE_ROTATION as int);
    assert(0 <= a * per_degree <= b * per_degree) by (nonlinear_arith)
        requires 0 <= a <= b, per_degree >= 0;
}

} // verus!
