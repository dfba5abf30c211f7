//! A ramp with constant acceleration: the delay drops by the same amount at
//! each pulse.
use vstd::prelude::*;
use crate::fixed_vec::{delay_buffer_new, delay_buffer_push, delay_items};
use crate::config::{STEPPER_DEFAULT_ACCELERATION, STEPPER_DEFAULT_START_DELAY};
use super::{Delays, MotionProfile, kept, ramp_length};

verus! {

#[derive(Debug, Clone, Copy)]
pub struct TrapezoidProfile {
    /// The delay of the first pulse.
    pub start_delay: u32,
    /// How much the delay drops from one pulse to the next.
    pub acceleration: u32,
}

impl TrapezoidProfile {
    /// The `i`-th delay of the ramp up.
    pub open spec fn accel_delay(self, i: int) -> u32 {
        (self.start_delay - i * self.acceleration) as u32
    }

    /// The ramp up of a move: its first delays, as many as a buffer holds.
    pub open spec fn accel_ramp(self, steps: u32) -> Seq<u32> {
        Seq::new(
            kept(ramp_length(self.start_delay, self.acceleration, steps)),
            |i: int| self.accel_delay(i),
        )
    }

    /// The ramp down of a move: the ramp up backwards, as many of its delays
    /// as a buffer holds.
    pub open spec fn decel_ramp(self, steps: u32) -> Seq<u32> {
        let n = ramp_length(self.start_delay, self.acceleration, steps);
        Seq::new(kept(n), |i: int| self.accel_delay(n - 1 - i))
    }

    /// The pulses sent at cruise speed.
    pub open spec fn cruise(self, steps: u32) -> nat {
        (steps + 1 - 2 * ramp_length(self.start_delay, self.acceleration, steps)) as nat
    }
}

proof fn lemma_ramp_products(sd: u32, acc: u32, i: int, n: nat)
    requires
        acc > 0,
        0 <= i < n,
        n <= sd / acc,
    ensures
        0 <= i * acc <= sd - acc,
        i * acc <= u32::MAX,
{
    assert(i * acc <= (n - 1) * acc) by (nonlinear_arith)
        requires 0 <= i < n, acc > 0;
    assert((n - 1) * acc == n * acc - acc) by (nonlinear_arith);
    assert(n * acc <= (sd / acc) * acc) by (nonlinear_arith)
        requires n <= sd / acc, acc > 0;
    assert((sd / acc) * acc <= sd) by (nonlinear_arith)
        requires acc > 0;
    assert(0 <= i * acc) by (nonlinear_arith)
        requires 0 <= i, acc > 0;
}

impl MotionProfile for TrapezoidProfile {
    open spec fn accepts(&self, steps: u32) -> bool {
        &&& self.acceleration > 0
        &&& steps + 1 <= usize::MAX
    }

    open spec fn profile(&self, steps: u32) -> (Seq<u32>, nat, Seq<u32>) {
        (self.accel_ramp(steps), self.cruise(steps), self.decel_ramp(steps))
    }

    fn delays(&self, steps: u32) -> (r: Delays) {
        let ghost requested = steps;
        let steps: usize = steps as usize + 1;
        let full_ramp_len = (self.start_delay / self.acceleration) as usize;
        let ramp_len = if full_ramp_len < steps / 2 { full_ramp_len } else { steps / 2 };
        let cruise_steps = steps - 2 * ramp_len;
        let ghost n = ramp_len as nat;
        assert(n == ramp_length(self.start_delay, self.acceleration, requested));

        let mut accel = delay_buffer_new();
        let mut decel = delay_buffer_new();
        let mut i: usize = 0;
        while i < ramp_len
            invariant
                self.acceleration > 0,
                n == ramp_len as nat,
                n <= self.start_delay / self.acceleration,
                i <= ramp_len,
                delay_items(accel) == Seq::new(kept(i as nat), |j: int| self.accel_delay(j)),
                delay_items(decel) == Seq::new(kept(i as nat), |j: int| self.accel_delay(n - 1 - j)),
            decreases ramp_len - i,
        {
            proof {
                lemma_ramp_products(self.start_delay, self.acceleration, i as int, n);
                lemma_ramp_products(self.start_delay, self.acceleration, (n - 1 - i) as int, n);
            }
            let up = self.start_delay - (i as u32 * self.acceleration);
            let down = self.start_delay - ((ramp_len - 1 - i) as u32 * self.acceleration);
            let ghost before_up = delay_items(accel);
            let ghost before_down = delay_items(decel);
            let _ = delay_buffer_push(&mut accel, up);
            let _ = delay_buffer_push(&mut decel, down);
            assert(delay_items(accel) == Seq::new(kept(i as nat + 1), |j: int| self.accel_delay(j)));
            assert(delay_items(decel) == Seq::new(kept(i as nat + 1), |j: int| self.accel_delay(n - 1 - j)));
            i = i + 1;
        }
        (accel, cruise_steps, decel)
    }
}

impl Default for TrapezoidProfile {
    fn default() -> (r: TrapezoidProfile)
        ensures
            r.start_delay == STEPPER_DEFAULT_START_DELAY,
            r.acceleration == STEPPER_DEFAULT_ACCELERATION,
    {
        TrapezoidProfile {
            start_delay: STEPPER_DEFAULT_START_DELAY,
            acceleration: STEPPER_DEFAULT_ACCELERATION,
        }
    }
}

} // verus!

verus! {

/// A move is made of its ramp up, its cruise and its ramp down: together
/// they count one pulse more than the steps, and the ramps take at most half
/// of them.
pub proof fn lemma_trapezoid_pulses_add_up(p: TrapezoidProfile, steps: u32)
    requires
        p.accepts(steps),
    ensures
        2 * ramp_length(p.start_delay, p.acceleration, steps) <= steps + 1,
        p.cruise(steps) + 2 * ramp_length(p.start_delay, p.acceleration, steps) == steps + 1,
{
}

/// Where the whole ramp fits in a buffer, the ramp down is the ramp up
/// backwards.
pub proof fn lemma_trapezoid_decel_mirrors_accel(p: TrapezoidProfile, steps: u32)
    requires
        p.accepts(steps),
        ramp_length(p.start_delay, p.acceleration, steps) <= 256,
    ensures
        p.decel_ramp(steps) == p.accel_ramp(steps).reverse(),
{
    assert(p.decel_ramp(steps) =~= p.accel_ramp(steps).reverse());
}

/// The ramp up speeds the motor up: each delay is shorter than the one
/// before by the acceleration, none is longer than the start delay, and none
/// is shorter than the acceleration.
pub proof fn lemma_trapezoid_ramp_speeds_up(p: TrapezoidProfile, steps: u32)
    requires
        p.accepts(steps),
    ensures
        forall|i: int| 0 < i < p.accel_ramp(steps).len() ==>
            #[trigger] p.accel_ramp(steps)[i] + p.acceleration == p.accel_ramp(steps)[i - 1],
        forall|i: int| 0 <= i < p.accel_ramp(steps).len() ==>
            p.acceleration <= #[trigger] p.accel_ramp(steps)[i] <= p.start_delay,
{
    let n = ramp_length(p.start_delay, p.acceleration, steps);
    assert forall|i: int| 0 <= i < p.accel_ramp(steps).len() implies
        p.acceleration <= #[trigger] p.accel_ramp(steps)[i] <= p.start_delay by {
        lemma_ramp_products(p.start_delay, p.acceleration, i, n);
    }
    assert forall|i: int| 0 < i < p.accel_ramp(steps).len() implies
        #[trigger] p.accel_ramp(steps)[i] + p.acceleration == p.accel_ramp(steps)[i - 1] by {
        lemma_ramp_products(p.start_delay, p.acceleration, i, n);
        lemma_ramp_products(p.start_delay, p.acceleration, i - 1, n);
        assert(i * p.acceleration == (i - 1) * p.acceleration + p.acceleration) by (nonlinear_arith);
    }
}

} // verus!

verus! {

/// Where the ramps fit in their buffers, a move of `steps` sends one pulse
/// more than `steps`.
pub proof fn lemma_trapezoid_pulse_count(p: TrapezoidProfile, steps: u32)
    requires
        p.accepts(steps),
        ramp_length(p.start_delay, p.acceleration, steps) <= 256,
    ensures
        super::pulse_delays(p.profile(steps), p.start_delay).len() == steps + 1,
{
    super::lemma_pulse_count(p.profile(steps), p.start_delay);
}

} // verus!
