//! What the robot does for each request: the request unfolds into a list of
//! commands, which the firmware carries out one after the other.
use vstd::prelude::*;
use crate::fixed_vec::{action_items, action_list_get, action_list_len};
use crate::packet::{Action, Color, RequestPacket};

verus! {

/// A movement of an actuator.
#[derive(Debug, Copy, Clone, PartialEq, Eq, Structural)]
pub enum Motion {
    GripperOpen,
    GripperClose,
    ExtensionPush,
    ExtensionPull,
    /// Drive straight by this many millimetres.
    Drive(i64),
    /// Turn in place by this many degrees.
    Turn(i64),
}

/// One command for the firmware.
#[derive(Debug, Copy, Clone, PartialEq, Eq, Structural)]
pub enum Command {
    /// Make one movement.
    Move(Motion),
    /// Make two movements at once and wait for both.
    Together(Motion, Motion),
    /// Wait this many milliseconds.
    Sleep(u64),
    /// Wait until this many milliseconds have passed since the request began.
    SleepUntil(u64),
    /// Switch all the stepper drivers on or off.
    SetEnables(bool),
    SetProximityEnable(bool),
    SetProximityThreshold(u32),
    /// Switch the two wheel drivers on or off.
    SetDrivetrainEnable(bool),
    /// Set the side the robot plays on.
    SetColor(Color),
    /// Do nothing: the action is one this firmware ignores.
    Nothing,
}

/// The command that carries out an action. The firmware wires no request to
/// the extension: pushing, pulling, switching it and setting its frequency
/// are ignored, and so is setting the frequency of the wheels, which run on
/// profiles.
pub open spec fn action_command(a: Action) -> Command {
    match a {
        Action::GripperOpen => Command::Move(Motion::GripperOpen),
        Action::GripperClose => Command::Move(Motion::GripperClose),
        Action::ExtensionPush => Command::Nothing,
        Action::ExtensionPull => Command::Nothing,
        Action::Drive(d) => Command::Move(Motion::Drive(d as i64)),
        Action::Turn(t) => Command::Move(Motion::Turn(t as i64)),
        Action::SetDrivetrainFrequency(_) => Command::Nothing,
        Action::SetExtensionFrequency(_) => Command::Nothing,
        Action::SetProximityEnable(e) => Command::SetProximityEnable(e),
        Action::SetProximityThreshold(t) => Command::SetProximityThreshold(t),
        Action::SetDrivetrainEnable(e) => Command::SetDrivetrainEnable(e),
        Action::SetExtensionEnable(_) => Command::Nothing,
        Action::SetColor(c) => Command::SetColor(c),
    }
}

/// The scripted part of a match, in order; afterwards the gripper waves.
pub const GAME_SCRIPT_LEN: u64 = 28;

/// The `i`-th command of the scripted part of a match.
pub open spec fn game_script(i: int) -> Command {
    if i == 0 { Command::Sleep(10_000) }
    else if i == 1 { Command::SetEnables(true) }
    else if i == 2 { Command::Together(Motion::Drive(160), Motion::GripperOpen) }
    else if i == 3 { Command::Move(Motion::Turn(-90 as i64)) }
    else if i == 4 { Command::Together(Motion::ExtensionPush, Motion::Drive(180)) }
    else if i == 5 { Command::Move(Motion::GripperClose) }
    else if i == 6 { Command::Move(Motion::ExtensionPull) }
    else if i == 7 { Command::Move(Motion::Drive(40)) }
    else if i == 8 { Command::Move(Motion::Drive(-210 as i64)) }
    else if i == 9 { Command::Move(Motion::Turn(90)) }
    else if i == 10 { Command::Move(Motion::Drive(240)) }
    else if i == 11 { Command::Move(Motion::Turn(-90 as i64)) }
    else if i == 12 { Command::Move(Motion::Drive(100)) }
    else if i == 13 { Command::Move(Motion::Turn(90)) }
    else if i == 14 { Command::Move(Motion::Drive(170)) }
    else if i == 15 { Command::Move(Motion::Drive(-390 as i64)) }
    else if i == 16 { Command::Move(Motion::GripperOpen) }
    else if i == 17 { Command::Move(Motion::ExtensionPush) }
    else if i == 18 { Command::Move(Motion::Drive(-90 as i64)) }
    else if i == 19 { Command::Move(Motion::Turn(90)) }
    else if i == 20 { Command::Move(Motion::Drive(90)) }
    else if i == 21 { Command::Move(Motion::Turn(-90 as i64)) }
    else if i == 22 { Command::Move(Motion::Drive(480)) }
    else if i == 23 { Command::Move(Motion::Drive(-50 as i64)) }
    else if i == 24 { Command::Move(Motion::Turn(-70 as i64)) }
    else if i == 25 { Command::Move(Motion::Drive(210)) }
    else if i == 26 { Command::SetEnables(false) }
    else { Command::SleepUntil(85_000) }
}

/// The `k`-th command of the gripper's endless wave that ends a match.
pub open spec fn game_finale(k: int) -> Command {
    if k == 0 { Command::Move(Motion::GripperClose) }
    else if k == 1 { Command::Sleep(100) }
    else if k == 2 { Command::Move(Motion::GripperOpen) }
    else { Command::Sleep(100) }
}

/// The `i`-th command of a match: the script, then the wave forever.
pub open spec fn game_command(i: int) -> Command {
    if i < GAME_SCRIPT_LEN { game_script(i) } else { game_finale((i - GAME_SCRIPT_LEN) % 4) }
}

/// The `k`-th command of one round of the rotation test.
pub open spec fn rotation_round(k: int) -> Command {
    if k == 0 { Command::Move(Motion::Turn(360)) } else { Command::Sleep(5_000) }
}

/// The `k`-th command of one square of sides `d`: four times a side and a
/// quarter turn, each followed by a short pause, then a long pause.
pub open spec fn square_round(d: u32, k: int) -> Command {
    if k == 16 { Command::Sleep(5_000) }
    else if k % 4 == 0 { Command::Move(Motion::Drive(d as i64)) }
    else if k % 4 == 2 { Command::Move(Motion::Turn(90)) }
    else { Command::Sleep(100) }
}

/// The `k`-th command of one round of the line test: forth, pause, back,
/// long pause.
pub open spec fn line_round(d: u32, k: int) -> Command {
    if k == 0 { Command::Move(Motion::Drive(d as i64)) }
    else if k == 1 { Command::Sleep(100) }
    else if k == 2 { Command::Move(Motion::Drive(-(d as i64) as i64)) }
    else { Command::Sleep(5_000) }
}

/// The number of commands of a request; `None` for a match, which never
/// ends. The extension test does nothing in this firmware.
pub open spec fn plan_len(req: RequestPacket) -> Option<nat> {
    match req {
        RequestPacket::Game => None,
        RequestPacket::Action(_) => Some(1),
        RequestPacket::Custom(v) => Some(action_items(v).len()),
        RequestPacket::TestExtension(_) => Some(0),
        RequestPacket::TestRotation(n) => Some(2 * n as nat),
        RequestPacket::TestSquare(n, _) => Some(17 * n as nat),
        RequestPacket::TestLine(n, _) => Some(4 * n as nat),
    }
}

/// The `i`-th command of a request, where the plan has one.
pub open spec fn planned_command(req: RequestPacket, i: int) -> Command {
    match req {
        RequestPacket::Game => game_command(i),
        RequestPacket::Action(a) => action_command(a),
        RequestPacket::Custom(v) => action_command(action_items(v)[i]),
        RequestPacket::TestExtension(_) => Command::Nothing,
        RequestPacket::TestRotation(_) => rotation_round(i % 2),
        RequestPacket::TestSquare(_, d) => square_round(d, i % 17),
        RequestPacket::TestLine(_, d) => line_round(d, i % 4),
    }
}

/// The `i`-th command of a request, or `None` past its end.
pub open spec fn plan_step(req: RequestPacket, i: int) -> Option<Command> {
    match plan_len(req) {
        None => if i >= 0 { Some(planned_command(req, i)) } else { None },
        Some(n) => if 0 <= i < n { Some(planned_command(req, i)) } else { None },
    }
}

/// The command that carries out an action.
pub fn handle_action(action: Action) -> (c: Command)
    ensures
        c == action_command(action),
{
    match action {
        Action::GripperOpen => Command::Move(Motion::GripperOpen),
        Action::GripperClose => Command::Move(Motion::GripperClose),
        Action::ExtensionPush => Command::Nothing,
        Action::ExtensionPull => Command::Nothing,
        Action::Drive(d) => Command::Move(Motion::Drive(d as i64)),
        Action::Turn(t) => Command::Move(Motion::Turn(t as i64)),
        Action::SetDrivetrainFrequency(_) => Command::Nothing,
        Action::SetExtensionFrequency(_) => Command::Nothing,
        Action::SetProximityEnable(e) => Command::SetProximityEnable(e),
        Action::SetProximityThreshold(t) => Command::SetProximityThreshold(t),
        Action::SetDrivetrainEnable(e) => Command::SetDrivetrainEnable(e),
        Action::SetExtensionEnable(_) => Command::Nothing,
        Action::SetColor(c) => Command::SetColor(c),
    }
}

/// The `i`-th command of a match.
pub fn handle_game(i: u64) -> (c: Command)
    ensures
        c == game_command(i as int),
{
    if i < GAME_SCRIPT_LEN {
        match i {
            0 => Command::Sleep(10_000),
            1 => Command::SetEnables(true),
            2 => Command::Together(Motion::Drive(160), Motion::GripperOpen),
            3 => Command::Move(Motion::Turn(-90)),
            4 => Command::Together(Motion::ExtensionPush, Motion::Drive(180)),
            5 => Command::Move(Motion::GripperClose),
            6 => Command::Move(Motion::ExtensionPull),
            7 => Command::Move(Motion::Drive(40)),
            8 => Command::Move(Motion::Drive(-210)),
            9 => Command::Move(Motion::Turn(90)),
            10 => Command::Move(Motion::Drive(240)),
            11 => Command::Move(Motion::Turn(-90)),
            12 => Command::Move(Motion::Drive(100)),
            13 => Command::Move(Motion::Turn(90)),
            14 => Command::Move(Motion::Drive(170)),
            15 => Command::Move(Motion::Drive(-390)),
            16 => Command::Move(Motion::GripperOpen),
            17 => Command::Move(Motion::ExtensionPush),
            18 => Command::Move(Motion::Drive(-90)),
            19 => Command::Move(Motion::Turn(90)),
            20 => Command::Move(Motion::Drive(90)),
            21 => Command::Move(Motion::Turn(-90)),
            22 => Command::Move(Motion::Drive(480)),
            23 => Command::Move(Motion::Drive(-50)),
            24 => Command::Move(Motion::Turn(-70)),
            25 => Command::Move(Motion::Drive(210)),
            26 => Command::SetEnables(false),
            _ => Command::SleepUntil(85_000),
        }
    } else {
        let k = (i - GAME_SCRIPT_LEN) % 4;
        if k == 0 {
            Command::Move(Motion::GripperClose)
        } else if k == 1 {
            Command::Sleep(100)
        } else if k == 2 {
            Command::Move(Motion::GripperOpen)
        } else {
            Command::Sleep(100)
        }
    }
}

/// The `i`-th command of a request, or `None` once it is done.
pub fn request_command(req: &RequestPacket, i: u64) -> (c: Option<Command>)
    ensures
        c == plan_step(*req, i as int),
{
    match req {
        RequestPacket::Game => Some(handle_game(i)),
        RequestPacket::Action(a) => if i == 0 { Some(handle_action(*a)) } else { None },
        RequestPacket::Custom(v) => {
            let n = action_list_len(v);
            if i < n as u64 {
                Some(handle_action(action_list_get(v, i as usize)))
            } else {
                None
            }
        },
        RequestPacket::TestExtension(_) => None,
        RequestPacket::TestRotation(n) => {
            if i < 2 * (*n as u64) {
                Some(if i % 2 == 0 { Command::Move(Motion::Turn(360)) } else { Command::Sleep(5_000) })
            } else {
                None
            }
        },
        RequestPacket::TestSquare(n, d) => {
            if i < 17 * (*n as u64) {
                let k = i % 17;
                Some(if k == 16 {
                    Command::Sleep(5_000)
                } else if k % 4 == 0 {
                    Command::Move(Motion::Drive(*d as i64))
                } else if k % 4 == 2 {
                    Command::Move(Motion::Turn(90))
                } else {
                    Command::Sleep(100)
                })
            } else {
                None
            }
        },
        RequestPacket::TestLine(n, d) => {
            if i < 4 * (*n as u64) {
                let k = i % 4;
                Some(if k == 0 {
                    Command::Move(Motion::Drive(*d as i64))
                } else if k == 1 {
                    Command::Sleep(100)
                } else if k == 2 {
                    Command::Move(Motion::Drive(-(*d as i64)))
                } else {
                    Command::Sleep(5_000)
                })
            } else {
                None
            }
        },
    }
}

} // verus!

verus! {

/// How far a command drives, in millimetres.
pub open spec fn drive_of(c: Command) -> int {
    match c {
        Command::Move(Motion::Drive(d)) => d as int,
        Command::Together(Motion::Drive(d), _) => d as int,
        Command::Together(_, Motion::Drive(d)) => d as int,
        _ => 0,
    }
}

/// How far a command turns, in degrees.
pub open spec fn turn_of(c: Command) -> int {
    match c {
        Command::Move(Motion::Turn(t)) => t as int,
        Command::Together(Motion::Turn(t), _) => t as int,
        Command::Together(_, Motion::Turn(t)) => t as int,
        _ => 0,
    }
}

/// The distance driven by the first `k` commands of a request.
pub open spec fn drive_total(req: RequestPacket, k: nat) -> int
    decreases k,
{
    if k == 0 { 0 } else { drive_total(req, (k - 1) as nat) + drive_of(planned_command(req, k - 1)) }
}

/// The angle turned by the first `k` commands of a request.
pub open spec fn turn_total(req: RequestPacket, k: nat) -> int
    decreases k,
{
    if k == 0 { 0 } else { turn_total(req, (k - 1) as nat) + turn_of(planned_command(req, k - 1)) }
}

proof fn lemma_round_index(m: nat, p: nat, j: nat)
    requires
        p > 0,
        j < p,
    ensures
        ((p * m + j) as int) % (p as int) == j,
{
    assert(((p * m + j) as int) % (p as int) == j) by (nonlinear_arith)
        requires p > 0, j < p;
}

proof fn lemma_line_rounds(n: u32, d: u32, m: nat)
    ensures
        drive_total(RequestPacket::TestLine(n, d), 4 * m) == 0,
    decreases m,
{
    if m > 0 {
        let r = RequestPacket::TestLine(n, d);
        let b = (4 * (m - 1)) as nat;
        lemma_line_rounds(n, d, (m - 1) as nat);
        lemma_round_index((m - 1) as nat, 4, 0);
        lemma_round_index((m - 1) as nat, 4, 1);
        lemma_round_index((m - 1) as nat, 4, 2);
        lemma_round_index((m - 1) as nat, 4, 3);
        assert(4 * m == b + 4);
        assert(planned_command(r, b as int) == Command::Move(Motion::Drive(d as i64)));
        assert(planned_command(r, b + 2int) == Command::Move(Motion::Drive(-(d as i64) as i64)));
        assert(drive_total(r, b + 1) == drive_total(r, b) + d);
        assert(drive_total(r, b + 2) == drive_total(r, b) + d);
        assert(drive_total(r, b + 3) == drive_total(r, b));
        assert(drive_total(r, b + 4) == drive_total(r, b));
    }
}

/// A line test ends where it started: its drives forth and back cancel out.
pub proof fn lemma_line_test_returns(n: u32, d: u32)
    ensures
        plan_len(RequestPacket::TestLine(n, d)) == Some(4 * n as nat),
        drive_total(RequestPacket::TestLine(n, d), 4 * n as nat) == 0,
{
    lemma_line_rounds(n, d, n as nat);
}

proof fn lemma_rotation_rounds(n: u32, m: nat)
    ensures
        turn_total(RequestPacket::TestRotation(n), 2 * m) == 360 * m,
    decreases m,
{
    if m > 0 {
        let r = RequestPacket::TestRotation(n);
        let b = (2 * (m - 1)) as nat;
        lemma_rotation_rounds(n, (m - 1) as nat);
        lemma_round_index((m - 1) as nat, 2, 0);
        lemma_round_index((m - 1) as nat, 2, 1);
        assert(2 * m == b + 2);
        assert(planned_command(r, b as int) == Command::Move(Motion::Turn(360)));
        assert(turn_total(r, b + 1) == turn_total(r, b) + 360);
        assert(turn_total(r, b + 2) == turn_total(r, b) + 360);
    }
}

/// A rotation test turns one full circle per round.
pub proof fn lemma_rotation_test_turns(n: u32)
    ensures
        plan_len(RequestPacket::TestRotation(n)) == Some(2 * n as nat),
        turn_total(RequestPacket::TestRotation(n), 2 * n as nat) == 360 * n,
{
    lemma_rotation_rounds(n, n as nat);
}

proof fn lemma_square_partial(n: u32, d: u32, m: nat, j: nat)
    requires
        j <= 17,
    ensures
        turn_total(RequestPacket::TestSquare(n, d), 17 * m + j) == 360 * m + 90 * ((j + 1) / 4),
        drive_total(RequestPacket::TestSquare(n, d), 17 * m + j) == 4 * d * m + d * (if j == 17 { 4 } else { (j + 3) / 4 }),
    decreases m, j,
{
    let r = RequestPacket::TestSquare(n, d);
    if j > 0 {
        lemma_square_partial(n, d, m, (j - 1) as nat);
        lemma_round_index(m, 17, (j - 1) as nat);
        let k = (17 * m + (j - 1)) as nat;
        assert(17 * m + j == k + 1);
        assert(planned_command(r, k as int) == square_round(d, j - 1));
        assert(drive_total(r, k + 1) == drive_total(r, k) + drive_of(square_round(d, j - 1)));
        assert(turn_total(r, k + 1) == turn_total(r, k) + turn_of(square_round(d, j - 1)));
        let c = if j - 1 == 17 { 4 } else { ((j - 1) + 3) / 4 };
        let c2 = if j == 17 { 4 } else { (j + 3) / 4 };
        if (j - 1) % 4 == 0 && j - 1 < 16 {
            assert(c2 == c + 1);
            assert(d * c2 == d * c + d) by (nonlinear_arith) requires c2 == c + 1;
        } else {
            assert(c2 == c);
            assert(drive_of(square_round(d, j - 1)) == 0);
        }
        assert(drive_total(r, k + 1) == 4 * d * m + d * c2);
    } else if m > 0 {
        lemma_square_partial(n, d, (m - 1) as nat, 17);
        assert(17 * (m - 1) + 17 == 17 * m) by (nonlinear_arith);
        assert(360 * (m - 1) + 360 == 360 * m) by (nonlinear_arith);
        assert(4 * d * (m - 1) + 4 * d == 4 * d * m) by (nonlinear_arith);
        assert(drive_total(r, 17 * m) == 4 * d * (m - 1) + d * 4);
        assert(drive_total(r, 17 * m + j) == 4 * d * m);
    }
    if j == 0 {
        assert(d * ((j + 3) / 4) == 0) by (nonlinear_arith) requires j == 0;
        if m == 0 {
            assert(4 * d * m == 0) by (nonlinear_arith) requires m == 0;
        }
    }
}

/// A square test turns one full circle per square, and drives four sides
/// per square.
pub proof fn lemma_square_test_turns(n: u32, d: u32)
    ensures
        plan_len(RequestPacket::TestSquare(n, d)) == Some(17 * n as nat),
        turn_total(RequestPacket::TestSquare(n, d), 17 * n as nat) == 360 * n,
        drive_total(RequestPacket::TestSquare(n, d), 17 * n as nat) == 4 * d * n,
{
    lemma_square_partial(n, d, n as nat, 0);
}

/// A match never runs out of commands, and after its script the gripper
/// closes and opens again every four commands.
pub proof fn lemma_game_never_ends(i: nat)
    ensures
        plan_step(RequestPacket::Game, i as int) is Some,
        i >= GAME_SCRIPT_LEN ==> planned_command(RequestPacket::Game, i + 4int) == planned_command(RequestPacket::Game, i as int),
{
    if i >= GAME_SCRIPT_LEN {
        assert((i + 4 - GAME_SCRIPT_LEN) % 4 == (i - GAME_SCRIPT_LEN) % 4) by (nonlinear_arith)
            requires i >= GAME_SCRIPT_LEN;
    }
}

} // verus!

verus! {

/// The heading of the robot, in degrees from where it started, after each of
/// the first 28 commands of a match (the scripted part).
pub open spec fn game_headings() -> Seq<int> {
    seq![0, 0, 0, 0, -90, -90, -90, -90, -90, -90, 0, 0, -90, -90, 0, 0, 0, 0, 0, 0, 90, 90, 0, 0, 0, -70, -70, -70, -70]
}

/// The distance the robot has driven, in millimetres (backwards counted
/// negative), after each of the first 28 commands of a match.
pub open spec fn game_travel() -> Seq<int> {
    seq![0, 0, 0, 160, 160, 340, 340, 340, 380, 170, 170, 410, 410, 510, 510, 680, 290, 290, 290, 200, 200, 290, 290, 770, 720, 720, 930, 930, 930]
}

/// The scripted part of a match follows the strategy: after each command
/// the robot faces and has driven as the strategy says, so every turn and
/// every drive of the script has the strategy's amount and comes in its
/// order; overall the script turns by -70 degrees and drives 930 mm.
pub proof fn lemma_game_script_follows_strategy()
    ensures
        forall|k: int| 0 <= k <= GAME_SCRIPT_LEN ==>
            #[trigger] turn_total(RequestPacket::Game, k as nat) == game_headings()[k],
        forall|k: int| 0 <= k <= GAME_SCRIPT_LEN ==>
            #[trigger] drive_total(RequestPacket::Game, k as nat) == game_travel()[k],
        turn_total(RequestPacket::Game, GAME_SCRIPT_LEN as nat) == -70,
        drive_total(RequestPacket::Game, GAME_SCRIPT_LEN as nat) == 930,
{
    let g = RequestPacket::Game;
    assert(turn_total(g, 0) == 0);
    assert(drive_total(g, 0) == 0);
    assert(turn_total(g, 1) == 0);
    assert(drive_total(g, 1) == 0);
    assert(turn_total(g, 2) == 0);
    assert(drive_total(g, 2) == 0);
    assert(turn_total(g, 3) == 0);
    assert(drive_total(g, 3) == 160);
    assert(turn_total(g, 4) == -90);
    assert(drive_total(g, 4) == 160);
    assert(turn_total(g, 5) == -90);
    assert(drive_total(g, 5) == 340);
    assert(turn_total(g, 6) == -90);
    assert(drive_total(g, 6) == 340);
    assert(turn_total(g, 7) == -90);
    assert(drive_total(g, 7) == 340);
    assert(turn_total(g, 8) == -90);
    assert(drive_total(g, 8) == 380);
    assert(turn_total(g, 9) == -90);
    assert(drive_total(g, 9) == 170);
    assert(turn_total(g, 10) == 0);
    assert(drive_total(g, 10) == 170);
    assert(turn_total(g, 11) == 0);
    assert(drive_total(g, 11) == 410);
    assert(turn_total(g, 12) == -90);
    assert(drive_total(g, 12) == 410);
    assert(turn_total(g, 13) == -90);
    assert(drive_total(g, 13) == 510);
    assert(turn_total(g, 14) == 0);
    assert(drive_total(g, 14) == 510);
    assert(turn_total(g, 15) == 0);
    assert(drive_total(g, 15) == 680);
    assert(turn_total(g, 16) == 0);
    assert(drive_total(g, 16) == 290);
    assert(turn_total(g, 17) == 0);
    assert(drive_total(g, 17) == 290);
    assert(turn_total(g, 18) == 0);
    assert(drive_total(g, 18) == 290);
    assert(turn_total(g, 19) == 0);
    assert(drive_total(g, 19) == 200);
    assert(turn_total(g, 20) == 90);
    assert(drive_total(g, 20) == 200);
    assert(turn_total(g, 21) == 90);
    assert(drive_total(g, 21) == 290);
    assert(turn_total(g, 22) == 0);
    assert(drive_total(g, 22) == 290);
    assert(turn_total(g, 23) == 0);
    assert(drive_total(g, 23) == 770);
    assert(turn_total(g, 24) == 0);
    assert(drive_total(g, 24) == 720);
    assert(turn_total(g, 25) == -70);
    assert(drive_total(g, 25) == 720);
    assert(turn_total(g, 26) == -70);
    assert(drive_total(g, 26) == 930);
    assert(turn_total(g, 27) == -70);
    assert(drive_total(g, 27) == 930);
    assert(turn_total(g, 28) == -70);
    assert(drive_total(g, 28) == 930);
    assert forall|k: int| 0 <= k <= GAME_SCRIPT_LEN implies
        #[trigger] turn_total(RequestPacket::Game, k as nat) == game_headings()[k] by {
        assert(game_headings().len() == 29);
    }
    assert forall|k: int| 0 <= k <= GAME_SCRIPT_LEN implies
        #[trigger] drive_total(RequestPacket::Game, k as nat) == game_travel()[k] by {
        assert(game_travel().len() == 29);
    }
}

/// The rest of the scripted part of a match: it waits ten seconds, switches
/// the drivers on, opens the gripper while driving off, pushes the
/// extension while driving, closes the gripper on what it reached and pulls
/// the extension back; later it opens the gripper and pushes the extension
/// again, switches the drivers off, and waits for the 85th second.
pub proof fn lemma_game_script_actuators()
    ensures
        game_command(0) == Command::Sleep(10_000),
        game_command(1) == Command::SetEnables(true),
        game_command(2) == Command::Together(Motion::Drive(160), Motion::GripperOpen),
        game_command(4) == Command::Together(Motion::ExtensionPush, Motion::Drive(180)),
        game_command(5) == Command::Move(Motion::GripperClose),
        game_command(6) == Command::Move(Motion::ExtensionPull),
        game_command(16) == Command::Move(Motion::GripperOpen),
        game_command(17) == Command::Move(Motion::ExtensionPush),
        game_command(26) == Command::SetEnables(false),
        game_command(27) == Command::SleepUntil(85_000),
{
}

} // verus!

verus! {

/// After its script a match waves the gripper forever: closed, a 100 ms
/// pause, open, a 100 ms pause, again and again.
pub proof fn lemma_game_wave(m: nat)
    ensures
        plan_step(RequestPacket::Game, (GAME_SCRIPT_LEN + 4 * m) as int) == Some(Command::Move(Motion::GripperClose)),
        plan_step(RequestPacket::Game, (GAME_SCRIPT_LEN + 4 * m + 1) as int) == Some(Command::Sleep(100)),
        plan_step(RequestPacket::Game, (GAME_SCRIPT_LEN + 4 * m + 2) as int) == Some(Command::Move(Motion::GripperOpen)),
        plan_step(RequestPacket::Game, (GAME_SCRIPT_LEN + 4 * m + 3) as int) == Some(Command::Sleep(100)),
{
    lemma_round_index(m, 4, 0);
    lemma_round_index(m, 4, 1);
    lemma_round_index(m, 4, 2);
    lemma_round_index(m, 4, 3);
}

/// A square test of `n` squares with sides of `d` mm runs, for each square,
/// four times: a side of `d` mm, a 100 ms pause, a quarter turn to the
/// left, a 100 ms pause; then a 5 s pause; and stops after the last square.
pub proof fn lemma_square_test_rounds(n: u32, d: u32, m: nat, j: nat)
    requires
        m < n,
        j < 17,
    ensures
        plan_len(RequestPacket::TestSquare(n, d)) == Some(17 * n as nat),
        plan_step(RequestPacket::TestSquare(n, d), (17 * m + j) as int) == Some(
            if j == 16 {
                Command::Sleep(5_000)
            } else if j % 2 == 1 {
                Command::Sleep(100)
            } else if j % 4 == 0 {
                Command::Move(Motion::Drive(d as i64))
            } else {
                Command::Move(Motion::Turn(90))
            },
        ),
        plan_step(RequestPacket::TestSquare(n, d), 17 * n as int) is None,
{
    lemma_round_index(m, 17, j);
    assert(17 * m + j < 17 * n) by (nonlinear_arith)
        requires m < n, j < 17;
}

/// A line test of `n` rounds of `d` mm runs, for each round: forth by `d`
/// mm, a 100 ms pause, back by `d` mm, a 5 s pause; and stops after the
/// last round.
pub proof fn lemma_line_test_rounds(n: u32, d: u32, m: nat)
    requires
        m < n,
    ensures
        plan_len(RequestPacket::TestLine(n, d)) == Some(4 * n as nat),
        plan_step(RequestPacket::TestLine(n, d), (4 * m) as int) == Some(Command::Move(Motion::Drive(d as i64))),
        plan_step(RequestPacket::TestLine(n, d), (4 * m + 1) as int) == Some(Command::Sleep(100)),
        plan_step(RequestPacket::TestLine(n, d), (4 * m + 2) as int) == Some(Command::Move(Motion::Drive(-(d as i64) as i64))),
        plan_step(RequestPacket::TestLine(n, d), (4 * m + 3) as int) == Some(Command::Sleep(5_000)),
        plan_step(RequestPacket::TestLine(n, d), 4 * n as int) is None,
{
    lemma_round_index(m, 4, 0);
    lemma_round_index(m, 4, 1);
    lemma_round_index(m, 4, 2);
    lemma_round_index(m, 4, 3);
}

/// A rotation test of `n` rounds runs, for each round, a full turn to the
/// left then a 5 s pause; and stops after the last round.
pub proof fn lemma_rotation_test_rounds(n: u32, m: nat)
    requires
        m < n,
    ensures
        plan_len(RequestPacket::TestRotation(n)) == Some(2 * n as nat),
        plan_step(RequestPacket::TestRotation(n), (2 * m) as int) == Some(Command::Move(Motion::Turn(360))),
        plan_step(RequestPacket::TestRotation(n), (2 * m + 1) as int) == Some(Command::Sleep(5_000)),
        plan_step(RequestPacket::TestRotation(n), 2 * n as int) is None,
{
    lemma_round_index(m, 2, 0);
    lemma_round_index(m, 2, 1);
}

/// A single action is one command, and a custom request is one command per
/// action, in order; the extension test does nothing.
pub proof fn lemma_actions_run_in_order(req: RequestPacket, i: int)
    ensures
        req matches RequestPacket::Action(a) ==> plan_step(req, 0) == Some(action_command(a))
            && (i != 0 ==> plan_step(req, i) is None),
        req matches RequestPacket::Custom(v) ==> plan_step(req, i) == (
            if 0 <= i < action_items(v).len() { Some(action_command(action_items(v)[i])) } else { None }),
        req matches RequestPacket::TestExtension(_) ==> plan_step(req, i) is None,
{
}

} // verus!

verus! {

/// Each action's command carries its payload unchanged: the colour chosen,
/// the enable flag, the threshold, the distance and the angle; the gripper
/// actions move the gripper the same way; the extension actions and the
/// frequency settings are ignored.
pub proof fn lemma_action_payloads_carried(a: Action)
    ensures
        a matches Action::SetColor(c) ==> action_command(a) == Command::SetColor(c),
        a matches Action::SetDrivetrainEnable(e) ==> action_command(a) == Command::SetDrivetrainEnable(e),
        a matches Action::SetProximityEnable(e) ==> action_command(a) == Command::SetProximityEnable(e),
        a matches Action::SetProximityThreshold(t) ==> action_command(a) == Command::SetProximityThreshold(t),
        a matches Action::Drive(d) ==> action_command(a) == Command::Move(Motion::Drive(d as i64))
            && drive_of(action_command(a)) == d && turn_of(action_command(a)) == 0,
        a matches Action::Turn(t) ==> action_command(a) == Command::Move(Motion::Turn(t as i64))
            && turn_of(action_command(a)) == t && drive_of(action_command(a)) == 0,
        a is GripperOpen ==> action_command(a) == Command::Move(Motion::GripperOpen),
        a is GripperClose ==> action_command(a) == Command::Move(Motion::GripperClose),
        (a is ExtensionPush || a is ExtensionPull || a is SetExtensionFrequency
            || a is SetDrivetrainFrequency || a is SetExtensionEnable) ==> action_command(a) == Command::Nothing,
{
}

/// Two actions that are not ignored give the same command only when they
/// are the same action: no action is mistaken for another.
pub proof fn lemma_actions_told_apart(a: Action, b: Action)
    ensures
        action_command(a) == action_command(b) && action_command(a) != Command::Nothing ==> a == b,
{
}

} // verus!
