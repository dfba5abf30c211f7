//! The packets that the controller sends to the robot and the robot answers.
use vstd::prelude::*;
use crate::fixed_vec::{action_items, action_list_new, action_list_push};

verus! {

/// The most actions that one custom request may carry.
pub const COMMAND_LENGTH_LIMIT: usize = 256;

/// One elementary order for the robot.
#[derive(Debug, Copy, Clone, PartialEq, Eq, Structural)]
pub enum Action {
    GripperOpen,
    GripperClose,
    ExtensionPush,
    ExtensionPull,
    /// Drive straight by this many millimetres (negative: backwards).
    Drive(i32),
    /// Turn in place by this many degrees.
    Turn(i32),
    SetDrivetrainFrequency(u32),
    SetExtensionFrequency(u32),
    SetProximityEnable(bool),
    SetProximityThreshold(u32),
    /// Switch the wheel drivers on or off.
    SetDrivetrainEnable(bool),
    /// Switch the extension driver on or off.
    SetExtensionEnable(bool),
    /// Choose the side the robot plays on.
    SetColor(Color),
}

/// The side of the field the robot plays on; turns are mirrored on yellow.
#[derive(Debug, Copy, Clone, PartialEq, Eq, Structural)]
pub enum Color {
    Yellow,
    Blue,
}

/// The colour as the command line names it.
#[derive(Debug, Copy, Clone, PartialEq, Eq, Structural)]
pub enum CliColor {
    Yellow,
    Blue,
}

/// The colour that a command-line colour names.
pub open spec fn color_of(c: CliColor) -> Color {
    match c {
        CliColor::Yellow => Color::Yellow,
        CliColor::Blue => Color::Blue,
    }
}

impl From<CliColor> for Color {
    fn from(c: CliColor) -> (r: Color) {
        match c {
            CliColor::Yellow => Color::Yellow,
            CliColor::Blue => Color::Blue,
        }
    }
}

impl vstd::std_specs::convert::FromSpecImpl<CliColor> for Color {
    open spec fn obeys_from_spec() -> bool {
        true
    }

    open spec fn from_spec(c: CliColor) -> Color {
        color_of(c)
    }
}

/// A request from the controller.
#[derive(Debug)]
pub enum RequestPacket {
    /// Play the match.
    Game,
    /// Carry out one action.
    Action(Action),
    /// Carry out these actions in order.
    Custom(heapless::Vec<Action, COMMAND_LENGTH_LIMIT>),
    /// Push and pull the extension this many times.
    TestExtension(u32),
    /// Turn a full circle this many times.
    TestRotation(u32),
    /// Drive a square this many times, with sides of this many millimetres.
    TestSquare(u32, u32),
    /// Drive forth and back this many times, by this many millimetres.
    TestLine(u32, u32),
}

/// The answer to a request.
#[derive(Debug, Copy, Clone, PartialEq, Eq, Structural)]
pub struct ResponsePacket {
    pub status: bool,
}

impl Default for ResponsePacket {
    fn default() -> (r: ResponsePacket)
        ensures
            r.status == false,
    {
        ResponsePacket { status: false }
    }
}

/// A custom request was given more actions than a packet carries.
#[derive(Debug, Copy, Clone, PartialEq, Eq, Structural)]
pub struct TooManyActions {
    /// How many actions were given.
    pub provided: usize,
}

impl TooManyActions {
    /// The most actions that a custom request carries.
    pub fn maximum(&self) -> (r: usize)
        ensures
            r == COMMAND_LENGTH_LIMIT,
    {
        COMMAND_LENGTH_LIMIT
    }
}

impl RequestPacket {
    /// The custom request that carries `actions` in order, or the error
    /// when there are more of them than a packet holds.
    pub fn custom(actions: &Vec<Action>) -> (r: Result<RequestPacket, TooManyActions>)
        ensures
            (r is Ok) == (actions@.len() <= COMMAND_LENGTH_LIMIT),
            r matches Ok(p) ==> p matches RequestPacket::Custom(v) && action_items(v) == actions@,
            r matches Err(e) ==> e.provided == actions@.len(),
    {
        if actions.len() > COMMAND_LENGTH_LIMIT {
            return Err(TooManyActions { provided: actions.len() });
        }
        let mut list = action_list_new();
        let mut i: usize = 0;
        while i < actions.len()
            invariant
                i <= actions@.len() <= 256,
                action_items(list) == actions@.take(i as int),
            decreases actions@.len() - i,
        {
            let _ = action_list_push(&mut list, actions[i]);
            assert(actions@.take(i as int + 1) == actions@.take(i as int).push(actions@[i as int]));
            i = i + 1;
        }
        assert(actions@.take(actions@.len() as int) == actions@);
        Ok(RequestPacket::Custom(list))
    }
}

} // verus!
