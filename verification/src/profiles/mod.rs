//! Acceleration profiles: for a move of a given number of steps, the delays
//! between the pulses of the ramp up, the number of pulses at cruise speed,
//! and the delays of the ramp down.
use vstd::prelude::*;

pub mod power;
pub mod scurve;
pub mod trapezoid;

pub use scurve::SCurveProfile;
pub use trapezoid::TrapezoidProfile;

use crate::fixed_vec::delay_items;

verus! {

/// The most delays that one ramp holds.
pub const STEPPER_MAX_ACCELERATION_STEPS: usize = 256;

/// A ramp up, a cruise length and a ramp down.
pub type Delays = (
    heapless::Vec<u32, STEPPER_MAX_ACCELERATION_STEPS>,
    usize,
    heapless::Vec<u32, STEPPER_MAX_ACCELERATION_STEPS>,
);

/// What a profile computes for a move, as mathematical values.
pub open spec fn delays_view(d: Delays) -> (Seq<u32>, nat, Seq<u32>) {
    (delay_items(d.0), d.1 as nat, delay_items(d.2))
}

/// The length of the ramps of a move of `steps` steps (one pulse more than
/// `steps` is sent): as long as the start delay allows, and at most half of
/// the pulses.
pub open spec fn ramp_length(start_delay: u32, acceleration: u32, steps: u32) -> nat {
    let full = (start_delay / acceleration) as nat;
    let half = ((steps + 1) / 2) as nat;
    if full <= half { full } else { half }
}

/// A ramp of `n` delays keeps at most the capacity of a buffer.
pub open spec fn kept(n: nat) -> nat {
    if n <= 256 { n } else { 256 }
}

pub trait MotionProfile {
    /// The moves for which `delays` is defined.
    spec fn accepts(&self, steps: u32) -> bool;

    /// The ramp up, cruise length and ramp down of a move of `steps` steps.
    spec fn profile(&self, steps: u32) -> (Seq<u32>, nat, Seq<u32>);

    /// Computes the ramp up, cruise length and ramp down of a move.
    fn delays(&self, steps: u32) -> (r: Delays)
        requires
            self.accepts(steps),
        ensures
            delays_view(r) == self.profile(steps),
    ;
}

} // verus!

verus! {

/// The delay of every pulse of a move: the ramp up, the cruise at the speed
/// the ramp up reached (its last delay, or the start delay when there is no
/// ramp), then the ramp down.
pub open spec fn pulse_delays(d: (Seq<u32>, nat, Seq<u32>), start_delay: u32) -> Seq<u32> {
    let cruise_delay = if d.0.len() > 0 { d.0.last() } else { start_delay };
    d.0 + Seq::new(d.1, |i: int| cruise_delay) + d.2
}

/// The delay of every pulse of a move, in the order they are sent.
pub fn pulse_delays_of(d: &Delays, start_delay: u32) -> (r: Vec<u32>)
    ensures
        r@ == pulse_delays(delays_view(*d), start_delay),
        r@.len() == delay_items(d.0).len() + d.1 + delay_items(d.2).len(),
        r@.subrange(0, delay_items(d.0).len() as int) == delay_items(d.0),
        forall|k: int| 0 <= k < d.1 ==> #[trigger] r@[delay_items(d.0).len() + k] == (
            if delay_items(d.0).len() > 0 { delay_items(d.0).last() } else { start_delay }),
        r@.subrange(delay_items(d.0).len() + d.1, r@.len() as int) == delay_items(d.2),
{
    let ghost up = delay_items(d.0);
    let ghost down = delay_items(d.2);
    let n_up = crate::fixed_vec::delay_buffer_len(&d.0);
    let n_down = crate::fixed_vec::delay_buffer_len(&d.2);
    let cruise_delay = if n_up > 0 { crate::fixed_vec::delay_buffer_get(&d.0, n_up - 1) } else { start_delay };
    let mut out: Vec<u32> = Vec::new();
    let mut i: usize = 0;
    while i < n_up
        invariant
            n_up == up.len(),
            up == delay_items(d.0),
            i <= n_up,
            out@ == up.take(i as int),
        decreases n_up - i,
    {
        out.push(crate::fixed_vec::delay_buffer_get(&d.0, i));
        assert(up.take(i as int + 1) == up.take(i as int).push(up[i as int]));
        i = i + 1;
    }
    assert(up.take(n_up as int) == up);
    let ghost cruise = Seq::new(d.1 as nat, |k: int| cruise_delay);
    let mut k: usize = 0;
    while k < d.1
        invariant
            k <= d.1,
            cruise == Seq::new(d.1 as nat, |j: int| cruise_delay),
            out@ == up + cruise.take(k as int),
        decreases d.1 - k,
    {
        out.push(cruise_delay);
        assert(cruise.take(k as int + 1) == cruise.take(k as int).push(cruise_delay));
        k = k + 1;
    }
    assert(cruise.take(d.1 as int) == cruise);
    let mut j: usize = 0;
    while j < n_down
        invariant
            n_down == down.len(),
            down == delay_items(d.2),
            j <= n_down,
            out@ == up + cruise + down.take(j as int),
        decreases n_down - j,
    {
        out.push(crate::fixed_vec::delay_buffer_get(&d.2, j));
        assert(down.take(j as int + 1) == down.take(j as int).push(down[j as int]));
        j = j + 1;
    }
    assert(down.take(n_down as int) == down);
    out
}

/// A move sends as many pulses as its ramps and cruise count together.
pub proof fn lemma_pulse_count(d: (Seq<u32>, nat, Seq<u32>), start_delay: u32)
    ensures
        pulse_delays(d, start_delay).len() == d.0.len() + d.1 + d.2.len(),
{
}

} // verus!

verus! {

/// The pulses of a move are its ramp up, then its cruise, then its ramp
/// down, and the cruise runs at the speed the ramp up reached: each cruise
/// pulse has the delay of the last pulse of the ramp up (the start delay
/// when there is no ramp), so where the ramp speeds up, no cruise pulse is
/// slower or faster than the last ramp pulse and none is slower than any
/// ramp pulse.
pub proof fn lemma_cruise_holds_ramp_speed(d: (Seq<u32>, nat, Seq<u32>), start_delay: u32)
    ensures
        pulse_delays(d, start_delay).len() == d.0.len() + d.1 + d.2.len(),
        pulse_delays(d, start_delay).subrange(0, d.0.len() as int) == d.0,
        pulse_delays(d, start_delay).subrange((d.0.len() + d.1) as int, (d.0.len() + d.1 + d.2.len()) as int) == d.2,
        forall|k: int| 0 <= k < d.1 ==> #[trigger] pulse_delays(d, start_delay)[d.0.len() + k]
            == if d.0.len() > 0 { d.0[d.0.len() - 1] } else { start_delay },
        (forall|i: int, j: int| 0 <= i <= j < d.0.len() ==> d.0[j] <= d.0[i]) ==>
            forall|k: int, i: int| 0 <= k < d.1 && 0 <= i < d.0.len() ==>
                #[trigger] pulse_delays(d, start_delay)[d.0.len() + k] <= #[trigger] d.0[i],
{
    let p = pulse_delays(d, start_delay);
    assert(p.subrange(0, d.0.len() as int) =~= d.0);
    assert(p.subrange((d.0.len() + d.1) as int, (d.0.len() + d.1 + d.2.len()) as int) =~= d.2);
}

} // verus!
