//! A ramp with bounded jerk: the acceleration rises by `jerk` per pulse up
//! to `acceleration` during the first half of the ramp, then falls by `jerk`
//! per pulse during the second half.
use vstd::prelude::*;
use crate::fixed_vec::{delay_buffer_get, delay_buffer_new, delay_buffer_push, delay_items};
use crate::config::{STEPPER_DEFAULT_ACCELERATION, STEPPER_DEFAULT_JERK, STEPPER_DEFAULT_START_DELAY};
use super::{Delays, MotionProfile, ramp_length};

verus! {

#[derive(Debug, Clone, Copy)]
pub struct SCurveProfile {
    /// The delay of the first pulse.
    pub start_delay: u32,
    /// The largest drop of the delay from one pulse to the next.
    pub acceleration: u32,
    /// How much that drop changes from one pulse to the next.
    pub jerk: u32,
}

/// `a - b`, or 0 where that is negative.
pub open spec fn saturated(a: int, b: int) -> int {
    if a >= b { a - b } else { 0 }
}

impl SCurveProfile {
    /// The drop of the delay at pulse `t` of a ramp of `n` pulses.
    pub open spec fn drop_at(self, n: nat, t: int) -> int {
        let half = n / 2;
        if t < half {
            if t * self.jerk <= self.acceleration { t * self.jerk } else { self.acceleration as int }
        } else {
            saturated(self.acceleration as int, (t - half) * self.jerk)
        }
    }

    /// The sum of the first `k` drops of a ramp of `n` pulses.
    pub open spec fn total_drop(self, n: nat, k: nat) -> int
        decreases k,
    {
        if k == 0 {
            0
        } else {
            self.total_drop(n, (k - 1) as nat) + self.drop_at(n, k - 1)
        }
    }

    /// The `i`-th delay of the ramp up of a ramp of `n` pulses.
    pub open spec fn accel_delay(self, n: nat, i: int) -> u32 {
        saturated(self.start_delay as int, self.total_drop(n, (i + 1) as nat)) as u32
    }

    /// The ramp up of a move.
    pub open spec fn accel_ramp(self, steps: u32) -> Seq<u32> {
        let n = ramp_length(self.start_delay, self.acceleration, steps);
        Seq::new(n, |i: int| self.accel_delay(n, i))
    }

    /// The ramp down of a move: the ramp up backwards.
    pub open spec fn decel_ramp(self, steps: u32) -> Seq<u32> {
        let n = ramp_length(self.start_delay, self.acceleration, steps);
        Seq::new(n, |i: int| self.accel_delay(n, n - 1 - i))
    }

    /// The pulses sent at cruise speed.
    pub open spec fn cruise(self, steps: u32) -> nat {
        (steps + 1 - 2 * ramp_length(self.start_delay, self.acceleration, steps)) as nat
    }

    proof fn lemma_drop_bounds(self, n: nat, t: int)
        requires
            t >= 0,
        ensures
            0 <= self.drop_at(n, t) <= self.acceleration,
    {
        if t < n / 2 {
            assert(t * self.jerk >= 0) by (nonlinear_arith)
                requires t >= 0;
        }
    }

    proof fn lemma_total_drop_bounds(self, n: nat, k: nat)
        ensures
            0 <= self.total_drop(n, k) <= k * self.acceleration,
            self.total_drop(n, k) <= self.total_drop(n, k + 1),
        decreases k,
    {
        self.lemma_drop_bounds(n, k as int);
        if k > 0 {
            self.lemma_total_drop_bounds(n, (k - 1) as nat);
            self.lemma_drop_bounds(n, k - 1);
            assert(k * self.acceleration == (k - 1) * self.acceleration + self.acceleration)
                by (nonlinear_arith);
        }
    }
}

proof fn lemma_ramp_fits(sd: u32, acc: u32, k: nat, n: nat)
    requires
        acc > 0,
        k <= n,
        n <= sd / acc,
    ensures
        k * acc <= sd,
{
    assert(k * acc <= n * acc) by (nonlinear_arith)
        requires k <= n, acc > 0;
    assert(n * acc <= (sd / acc) * acc) by (nonlinear_arith)
        requires n <= sd / acc, acc > 0;
    assert((sd / acc) * acc <= sd) by (nonlinear_arith)
        requires acc > 0;
}

proof fn lemma_jerk_product(t: int, m: int, jerk: u32)
    requires
        0 <= t <= m,
        m * jerk <= u32::MAX,
    ensures
        0 <= t * jerk <= u32::MAX,
{
    assert(0 <= t * jerk <= m * jerk) by (nonlinear_arith)
        requires 0 <= t <= m, jerk >= 0;
}

impl MotionProfile for SCurveProfile {
    /// Defined where the acceleration is not zero, one pulse more than the
    /// steps fits in a `usize`, the ramp fits in a buffer, and no drop of
    /// the ramp overflows a `u32`.
    open spec fn accepts(&self, steps: u32) -> bool {
        let n = ramp_length(self.start_delay, self.acceleration, steps);
        &&& self.acceleration > 0
        &&& steps + 1 <= usize::MAX
        &&& n <= 256
        &&& n == 0 || (n - 1 - n / 2) * self.jerk <= u32::MAX
    }

    open spec fn profile(&self, steps: u32) -> (Seq<u32>, nat, Seq<u32>) {
        (self.accel_ramp(steps), self.cruise(steps), self.decel_ramp(steps))
    }

    fn delays(&self, steps: u32) -> (r: Delays) {
        let ghost requested = steps;
        let steps: usize = steps as usize + 1;
        let full_ramp_len = (self.start_delay / self.acceleration) as usize;
        let ramp_len = if full_ramp_len < steps / 2 { full_ramp_len } else { steps / 2 };
        let cruise_steps = steps - 2 * ramp_len;
        let ghost n = ramp_len as nat;
        assert(n == ramp_length(self.start_delay, self.acceleration, requested));

        let mut cumulative = delay_buffer_new();
        let mut running: u32 = 0;
        let mut i: usize = 0;
        while i < ramp_len
            invariant
                self.acceleration > 0,
                n == ramp_len as nat,
                n <= 256,
                n <= self.start_delay / self.acceleration,
                n == 0 || (n - 1 - n / 2) * self.jerk <= u32::MAX,
                i <= ramp_len,
                running == self.total_drop(n, i as nat),
                delay_items(cumulative) == Seq::new(i as nat, |j: int| self.total_drop(n, (j + 1) as nat) as u32),
            decreases ramp_len - i,
        {
            let t = i as u32;
            let half = (ramp_len / 2) as u32;
            let current_accel = if t < half {
                proof { lemma_jerk_product(t as int, n - 1 - n / 2, self.jerk); }
                let a = t * self.jerk;
                if a <= self.acceleration { a } else { self.acceleration }
            } else {
                proof { lemma_jerk_product((t - half) as int, n - 1 - n / 2, self.jerk); }
                self.acceleration.saturating_sub((t - half) * self.jerk)
            };
            proof {
                assert(current_accel == self.drop_at(n, i as int));
                self.lemma_total_drop_bounds(n, (i + 1) as nat);
                lemma_ramp_fits(self.start_delay, self.acceleration, (i + 1) as nat, n);
            }
            running = running + current_accel;
            let _ = delay_buffer_push(&mut cumulative, running);
            assert(delay_items(cumulative) == Seq::new((i + 1) as nat, |j: int| self.total_drop(n, (j + 1) as nat) as u32));
            i = i + 1;
        }

        let mut accel = delay_buffer_new();
        let mut decel = delay_buffer_new();
        let mut i: usize = 0;
        while i < ramp_len
            invariant
                self.acceleration > 0,
                n == ramp_len as nat,
                n <= 256,
                n <= self.start_delay / self.acceleration,
                i <= ramp_len,
                delay_items(cumulative) == Seq::new(n, |j: int| self.total_drop(n, (j + 1) as nat) as u32),
                delay_items(accel) == Seq::new(i as nat, |j: int| self.accel_delay(n, j)),
                delay_items(decel) == Seq::new(i as nat, |j: int| self.accel_delay(n, n - 1 - j)),
            decreases ramp_len - i,
        {
            proof {
                self.lemma_total_drop_bounds(n, (i + 1) as nat);
                self.lemma_total_drop_bounds(n, (n - i) as nat);
                lemma_ramp_fits(self.start_delay, self.acceleration, (i + 1) as nat, n);
                lemma_ramp_fits(self.start_delay, self.acceleration, (n - i) as nat, n);
            }
            let up = self.start_delay.saturating_sub(delay_buffer_get(&cumulative, i));
            let down = self.start_delay.saturating_sub(delay_buffer_get(&cumulative, ramp_len - 1 - i));
            let _ = delay_buffer_push(&mut accel, up);
            let _ = delay_buffer_push(&mut decel, down);
            assert(delay_items(accel) == Seq::new((i + 1) as nat, |j: int| self.accel_delay(n, j)));
            assert(delay_items(decel) == Seq::new((i + 1) as nat, |j: int| self.accel_delay(n, n - 1 - j)));
            i = i + 1;
        }
        (accel, cruise_steps, decel)
    }
}

impl Default for SCurveProfile {
    fn default() -> (r: SCurveProfile)
        ensures
            r.start_delay == STEPPER_DEFAULT_START_DELAY,
            r.acceleration == STEPPER_DEFAULT_ACCELERATION,
            r.jerk == STEPPER_DEFAULT_JERK,
    {
        SCurveProfile {
            start_delay: STEPPER_DEFAULT_START_DELAY,
            acceleration: STEPPER_DEFAULT_ACCELERATION,
            jerk: STEPPER_DEFAULT_JERK,
        }
    }
}

} // verus!

verus! {

/// A move is made of its ramp up, its cruise and its ramp down: together
/// they count one pulse more than the steps, and the ramps take at most half
/// of them.
pub proof fn lemma_scurve_pulses_add_up(p: SCurveProfile, steps: u32)
    requires
        p.accepts(steps),
    ensures
        2 * ramp_length(p.start_delay, p.acceleration, steps) <= steps + 1,
        p.cruise(steps) + 2 * ramp_length(p.start_delay, p.acceleration, steps) == steps + 1,
        p.accel_ramp(steps).len() == ramp_length(p.start_delay, p.acceleration, steps),
{
}

/// The ramp down is the ramp up backwards.
pub proof fn lemma_scurve_decel_mirrors_accel(p: SCurveProfile, steps: u32)
    requires
        p.accepts(steps),
    ensures
        p.decel_ramp(steps) == p.accel_ramp(steps).reverse(),
{
    assert(p.decel_ramp(steps) =~= p.accel_ramp(steps).reverse());
}

/// The ramp up speeds the motor up: no delay is longer than the one before,
/// and none is longer than the start delay.
pub proof fn lemma_scurve_ramp_speeds_up(p: SCurveProfile, steps: u32)
    requires
        p.accepts(steps),
    ensures
        forall|i: int, j: int| 0 <= i <= j < p.accel_ramp(steps).len() ==>
            #[trigger] p.accel_ramp(steps)[j] <= #[trigger] p.accel_ramp(steps)[i],
        forall|i: int| 0 <= i < p.accel_ramp(steps).len() ==>
            #[trigger] p.accel_ramp(steps)[i] <= p.start_delay,
{
    let n = ramp_length(p.start_delay, p.acceleration, steps);
    assert forall|i: int| 0 <= i < p.accel_ramp(steps).len() implies
        #[trigger] p.accel_ramp(steps)[i] <= p.start_delay by {
        p.lemma_total_drop_bounds(n, (i + 1) as nat);
    }
    assert forall|i: int, j: int| 0 <= i <= j < p.accel_ramp(steps).len() implies
        #[trigger] p.accel_ramp(steps)[j] <= #[trigger] p.accel_ramp(steps)[i] by {
        lemma_total_drop_grows(p, n, (i + 1) as nat, (j + 1) as nat);
        p.lemma_total_drop_bounds(n, (i + 1) as nat);
        p.lemma_total_drop_bounds(n, (j + 1) as nat);
        lemma_ramp_fits(p.start_delay, p.acceleration, (j + 1) as nat, n);
    }
}

proof fn lemma_total_drop_grows(p: SCurveProfile, n: nat, a: nat, b: nat)
    requires
        a <= b,
    ensures
        p.total_drop(n, a) <= p.total_drop(n, b),
    decreases b - a,
{
    if a < b {
        lemma_total_drop_grows(p, n, a, (b - 1) as nat);
        p.lemma_total_drop_bounds(n, (b - 1) as nat);
    }
}

} // verus!

verus! {

/// A move of `steps` sends one pulse more than `steps`.
pub proof fn lemma_scurve_pulse_count(p: SCurveProfile, steps: u32)
    requires
        p.accepts(steps),
    ensures
        super::pulse_delays(p.profile(steps), p.start_delay).len() == steps + 1,
{
    super::lemma_pulse_count(p.profile(steps), p.start_delay);
}

} // verus!
