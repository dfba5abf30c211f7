//! An ultrasonic range finder: the echo pulse lasts as long as the sound
//! takes to go to the obstacle and back.
use vstd::prelude::*;

verus! {

pub struct Ultrasonic;

impl Ultrasonic {
    /// The distance, in millimetres, for an echo pulse of `micros`
    /// microseconds (taken as a `u32`): sound covers 0.34 mm per
    /// microsecond, there and back.
    pub fn get_distance(micros: u64) -> (r: u32)
        requires
            (micros as u32) * 34 <= u32::MAX,
        ensures
            r == (micros as u32) * 34 / 200,
    {
        micros as u32 * 34 / 200
    }
}

} // verus!
