//! The direction and step-count logic of a stepper motor driven by a PIO
//! state machine, and the guard that undoes an interrupted move.
use vstd::prelude::*;
use core::marker::PhantomData;

verus! {

/// How a stepper is fed: with a step count alone, or with a delay per step.
pub trait AccMode {
    /// The PIO instructions that one step takes in this mode's program.
    spec fn instructions_per_step() -> u32;

    /// The PIO instructions that one step takes in this mode's program.
    fn instruction_count() -> (r: u32)
        ensures
            r == Self::instructions_per_step(),
    ;
}

/// Constant speed: the state machine is given a step count.
pub struct NoAcc;

/// Accelerated: the state machine is given a delay for each step.
pub struct WithAcc;

impl AccMode for NoAcc {
    /// Two set instructions with 31 delay cycles each, and the loop jump.
    open spec fn instructions_per_step() -> u32 {
        65
    }

    fn instruction_count() -> (r: u32) {
        65
    }
}

impl AccMode for WithAcc {
    /// The constant-speed loop with a pull, an out and a delay jump more.
    open spec fn instructions_per_step() -> u32 {
        68
    }

    fn instruction_count() -> (r: u32) {
        68
    }
}

/// What the logic keeps of a stepper: the level of its direction pin.
pub struct Stepper<A: AccMode> {
    dir_high: bool,
    mode: PhantomData<A>,
}

/// The step count that the state machine is given for a signed move: the
/// program runs its loop once more than the count, so one less than the
/// size of the move; nothing for a move of zero steps.
pub open spec fn converted_steps(steps: i32) -> Option<u32> {
    if steps > 0 {
        Some((steps - 1) as u32)
    } else if steps < 0 {
        Some((-steps - 1) as u32)
    } else {
        None
    }
}

/// The direction pin after a move of `steps` from a pin at `high`: high
/// forwards, low backwards, unchanged for zero steps.
pub open spec fn direction_after(high: bool, steps: i32) -> bool {
    if steps > 0 {
        true
    } else if steps < 0 {
        false
    } else {
        high
    }
}

impl<A: AccMode> Stepper<A> {
    /// The level of the direction pin.
    pub closed spec fn dir(&self) -> bool {
        self.dir_high
    }

    /// A stepper whose direction pin starts low.
    pub fn new() -> (s: Self)
        ensures
            s.dir() == false,
    {
        Stepper { dir_high: false, mode: PhantomData }
    }

    /// Whether the direction pin is high.
    pub fn dir_is_high(&self) -> (r: bool)
        ensures
            r == self.dir(),
    {
        self.dir_high
    }

    /// The step count for the state machine; `None` for zero steps.
    pub fn convert_steps(steps: i32) -> (r: Option<u32>)
        requires
            steps != i32::MIN,
        ensures
            r == converted_steps(steps),
    {
        if steps >= 1 {
            Some(steps as u32 - 1)
        } else if steps <= -1 {
            Some((-steps) as u32 - 1)
        } else {
            None
        }
    }

    /// Sets the direction pin for a move of `steps`.
    pub fn update_direction(&mut self, steps: i32)
        ensures
            final(self).dir() == direction_after(old(self).dir(), steps),
    {
        if steps >= 1 {
            self.dir_high = true;
        } else if steps <= -1 {
            self.dir_high = false;
        }
    }

    /// Readies a move of `steps`: sets the direction pin and gives the step
    /// count to push to the state machine, or `None` when there is nothing
    /// to do.
    pub fn prepare_step(&mut self, steps: i32) -> (r: Option<u32>)
        requires
            steps != i32::MIN,
        ensures
            final(self).dir() == direction_after(old(self).dir(), steps),
            r == converted_steps(steps),
    {
        self.update_direction(steps);
        Self::convert_steps(steps)
    }

    /// The instruction rate that the state machine must run at for
    /// `frequency` steps per second.
    pub fn pio_frequency(frequency: u32) -> (r: u32)
        requires
            frequency * A::instructions_per_step() <= u32::MAX,
        ensures
            r == frequency * A::instructions_per_step(),
    {
        frequency * A::instruction_count()
    }
}

impl Stepper<WithAcc> {
    /// The count word pushed to the state machine ahead of the delays of an
    /// accelerated move: the program steps once more than the count it is
    /// given, so one less than the number of delays (taken as a `u32`), so
    /// that it takes one pulse per delay; nothing for an empty list.
    pub fn delay_count(delays: &[u32]) -> (r: Option<u32>)
        ensures
            r == (if delays@.len() == 0 { None } else { Some((delays@.len() - 1) as u32) }),
    {
        if delays.len() == 0 {
            None
        } else {
            Some((delays.len() - 1) as u32)
        }
    }
}

/// A callback that is kept for the case where a move is abandoned: it is
/// either run or defused. This models the guard only: with no destructors in
/// verified code, dropping an undefused guard runs nothing, and a caller
/// that abandons a move calls `run` itself.
pub struct OnDrop<F: FnOnce()> {
    f: F,
}

impl<F: FnOnce()> OnDrop<F> {
    /// The callback that this guard holds.
    pub closed spec fn callback(&self) -> F {
        self.f
    }

    /// Keeps `f` for later.
    pub fn new(f: F) -> (r: Self)
        ensures
            r.callback() == f,
    {
        OnDrop { f }
    }

    /// Gives the guard up without running its callback.
    pub fn defuse(self) {
    }

    /// Runs the callback: what the guard stands for when a move is abandoned
    /// before it is defused.
    pub fn run(self)
        requires
            self.callback().requires(()),
        ensures
            self.callback().ensures((), ()),
    {
        (self.f)()
    }
}

} // verus!

verus! {

/// The step count does not depend on the direction: a move and its reverse
/// push the same count, and only a move of zero steps pushes nothing.
pub proof fn lemma_step_count_ignores_direction(steps: i32)
    requires
        steps != i32::MIN,
    ensures
        converted_steps(steps) == converted_steps((-steps) as i32),
        converted_steps(steps) is None <==> steps == 0,
        converted_steps(steps) matches Some(c) ==> c + 1 == if steps < 0 { -steps } else { steps as int },
{
}

/// A move and its reverse set the direction pin to opposite levels.
pub proof fn lemma_reverse_move_flips_direction(high: bool, steps: i32)
    requires
        steps != 0,
        steps != i32::MIN,
    ensures
        direction_after(high, steps) != direction_after(high, (-steps) as i32),
{
}

} // verus!
