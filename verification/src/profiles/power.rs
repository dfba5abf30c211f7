//! The integer skeleton of the power-law profile: how long its ramps and
//! its coast are, and how its delays are laid out. The delays themselves
//! come from floating-point arithmetic, computed by the caller.
use vstd::prelude::*;
use crate::fixed_vec::{delay_buffer_get, delay_buffer_len, delay_buffer_new, delay_buffer_push, delay_items};
use super::kept;

verus! {

/// The ramp length and the coast length of a move of `steps` pulses whose
/// ramp could be `max_ramp` long: the ramp takes at most half of the
/// pulses and the coast the rest.
pub fn power_ramp_lengths(max_ramp: u32, steps: u32) -> (r: (u32, u32))
    ensures
        r.0 == if max_ramp <= steps / 2 { max_ramp } else { steps / 2 },
        r.1 == steps - 2 * r.0,
{
    let accel_steps = if max_ramp < steps / 2 { max_ramp } else { steps / 2 };
    let coast_steps = steps.saturating_sub(2 * accel_steps);
    (accel_steps, coast_steps)
}

/// The ramp, `coast` pulses at `cruise`, and the ramp backwards.
pub open spec fn mirrored(ramp: Seq<u32>, cruise: u32, coast: nat) -> Seq<u32> {
    ramp + Seq::new(coast, |i: int| cruise) + ramp.reverse()
}

/// Lays out the delays of a power-law move in a buffer: the ramp, the
/// coast at `cruise_delay`, then the ramp read back from the buffer in
/// reverse; what does not fit in the buffer is left out.
pub fn mirror_profile(ramp: &[u32], cruise_delay: u32, coast_steps: u32) -> (r: heapless::Vec<u32, 256>)
    ensures
        delay_items(r) == mirrored(ramp@, cruise_delay, coast_steps as nat).take(
            kept((2 * ramp@.len() + coast_steps) as nat) as int,
        ),
{
    let ghost full = mirrored(ramp@, cruise_delay, coast_steps as nat);
    let ghost a = ramp@.len();
    let mut vec = delay_buffer_new();
    let mut i: usize = 0;
    while i < ramp.len()
        invariant
            a == ramp@.len(),
            full == mirrored(ramp@, cruise_delay, coast_steps as nat),
            i <= a,
            delay_items(vec) == full.take(kept(i as nat) as int),
        decreases a - i,
    {
        let _ = delay_buffer_push(&mut vec, ramp[i]);
        i = i + 1;
    }
    let mut k: u32 = 0;
    while k < coast_steps
        invariant
            a == ramp@.len(),
            full == mirrored(ramp@, cruise_delay, coast_steps as nat),
            k <= coast_steps,
            delay_items(vec) == full.take(kept((a + k) as nat) as int),
        decreases coast_steps - k,
    {
        let _ = delay_buffer_push(&mut vec, cruise_delay);
        k = k + 1;
    }
    let mut j: usize = ramp.len();
    while j > 0
        invariant
            a == ramp@.len(),
            full == mirrored(ramp@, cruise_delay, coast_steps as nat),
            j <= a,
            delay_items(vec) == full.take(kept((a + coast_steps + (a - j)) as nat) as int),
        decreases j,
    {
        j = j - 1;
        let ghost m = (a + coast_steps + (a - 1 - j)) as nat;
        let len = delay_buffer_len(&vec);
        if j < len {
            let d = delay_buffer_get(&vec, j);
            assert(d == ramp@[j as int]);
            assert(full[m as int] == ramp@[j as int]);
            let _ = delay_buffer_push(&mut vec, d);
        }
        assert(delay_items(vec) == full.take(kept(m + 1) as int));
    }
    vec
}

/// Where the whole move fits in the buffer, its delays read the same both
/// ways, and there are as many as the ramps and the coast together.
pub proof fn lemma_power_profile_palindrome(ramp: Seq<u32>, cruise: u32, coast: nat)
    ensures
        mirrored(ramp, cruise, coast).len() == 2 * ramp.len() + coast,
        mirrored(ramp, cruise, coast).reverse() == mirrored(ramp, cruise, coast),
{
    let full = mirrored(ramp, cruise, coast);
    let a = ramp.len() as int;
    let l = full.len() as int;
    assert forall|k: int| 0 <= k < l implies #[trigger] full.reverse()[k] == full[k] by {
        let q = l - 1 - k;
        if k < a {
            assert(full[k] == ramp[k]);
            assert(full[q] == ramp.reverse()[q - a - coast]);
        } else if k < a + coast {
            assert(full[k] == cruise);
        } else {
            assert(full[k] == ramp.reverse()[k - a - coast]);
            assert(full[q] == ramp[q]);
        }
    }
    assert(full.reverse() =~= full);
}

} // verus!
