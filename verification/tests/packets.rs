use hybrid::packet::{Action, CliColor, Color, RequestPacket, ResponsePacket, COMMAND_LENGTH_LIMIT};
use hybrid::plan::{handle_action, handle_game, request_command, Command, Motion};

#[test]
fn cli_color_converts() {
    assert_eq!(Color::from(CliColor::Yellow), Color::Yellow);
    assert_eq!(Color::from(CliColor::Blue), Color::Blue);
}

#[test]
fn response_default_is_false() {
    assert!(!ResponsePacket::default().status);
}

#[test]
fn custom_keeps_actions_in_order() {
    let actions = vec![Action::GripperOpen, Action::Drive(-5), Action::SetProximityEnable(true)];
    match RequestPacket::custom(&actions) {
        Ok(RequestPacket::Custom(v)) => assert_eq!(v.as_slice(), actions.as_slice()),
        _ => panic!("expected a custom request"),
    }
}

#[test]
fn custom_accepts_the_limit_and_refuses_more() {
    let actions = vec![Action::Turn(1); COMMAND_LENGTH_LIMIT];
    match RequestPacket::custom(&actions) {
        Ok(RequestPacket::Custom(v)) => assert_eq!(v.len(), 256),
        _ => panic!("expected a custom request"),
    }
    let actions = vec![Action::Turn(1); COMMAND_LENGTH_LIMIT + 1];
    match RequestPacket::custom(&actions) {
        Err(e) => {
            assert_eq!(e.provided, 257);
            assert_eq!(e.maximum(), 256);
        }
        _ => panic!("expected an error"),
    }
}

#[test]
fn actions_become_commands() {
    assert_eq!(handle_action(Action::GripperOpen), Command::Move(Motion::GripperOpen));
    assert_eq!(handle_action(Action::ExtensionPull), Command::Nothing);
    assert_eq!(handle_action(Action::ExtensionPush), Command::Nothing);
    assert_eq!(handle_action(Action::SetExtensionFrequency(9)), Command::Nothing);
    assert_eq!(handle_action(Action::Drive(-7)), Command::Move(Motion::Drive(-7)));
    assert_eq!(handle_action(Action::Turn(45)), Command::Move(Motion::Turn(45)));
    assert_eq!(handle_action(Action::SetDrivetrainFrequency(9)), Command::Nothing);
    assert_eq!(handle_action(Action::SetProximityThreshold(3)), Command::SetProximityThreshold(3));
    assert_eq!(handle_action(Action::SetProximityEnable(false)), Command::SetProximityEnable(false));
    assert_eq!(handle_action(Action::SetDrivetrainEnable(true)), Command::SetDrivetrainEnable(true));
    assert_eq!(handle_action(Action::SetDrivetrainEnable(false)), Command::SetDrivetrainEnable(false));
    assert_eq!(handle_action(Action::SetExtensionEnable(true)), Command::Nothing);
    assert_eq!(handle_action(Action::SetColor(Color::Yellow)), Command::SetColor(Color::Yellow));
}

fn collect(req: &RequestPacket) -> Vec<Command> {
    let mut out = Vec::new();
    let mut i = 0u64;
    while let Some(c) = request_command(req, i) {
        out.push(c);
        i += 1;
    }
    out
}

#[test]
fn single_action_and_custom_plans() {
    assert_eq!(collect(&RequestPacket::Action(Action::GripperClose)), vec![Command::Move(Motion::GripperClose)]);
    let req = RequestPacket::custom(&vec![Action::Drive(10), Action::Turn(-10)]).unwrap();
    assert_eq!(
        collect(&req),
        vec![Command::Move(Motion::Drive(10)), Command::Move(Motion::Turn(-10))]
    );
}

#[test]
fn line_test_returns_to_start() {
    let plan = collect(&RequestPacket::TestLine(2, 50));
    assert_eq!(plan.len(), 8);
    assert_eq!(plan[0], Command::Move(Motion::Drive(50)));
    assert_eq!(plan[1], Command::Sleep(100));
    assert_eq!(plan[2], Command::Move(Motion::Drive(-50)));
    assert_eq!(plan[3], Command::Sleep(5_000));
    let total: i64 = plan.iter().map(|c| match c { Command::Move(Motion::Drive(d)) => *d, _ => 0 }).sum();
    assert_eq!(total, 0);
    assert!(collect(&RequestPacket::TestLine(0, 50)).is_empty());
    assert_eq!(request_command(&RequestPacket::TestLine(1, u32::MAX), 2), Some(Command::Move(Motion::Drive(-(u32::MAX as i64)))));
}

#[test]
fn square_and_rotation_tests_turn_full_circles() {
    let plan = collect(&RequestPacket::TestSquare(3, 200));
    assert_eq!(plan.len(), 51);
    let turns: i64 = plan.iter().map(|c| match c { Command::Move(Motion::Turn(t)) => *t, _ => 0 }).sum();
    let drives: i64 = plan.iter().map(|c| match c { Command::Move(Motion::Drive(d)) => *d, _ => 0 }).sum();
    assert_eq!(turns, 3 * 360);
    assert_eq!(drives, 3 * 4 * 200);
    assert_eq!(plan[16], Command::Sleep(5_000));
    let plan = collect(&RequestPacket::TestRotation(2));
    assert_eq!(plan, vec![
        Command::Move(Motion::Turn(360)), Command::Sleep(5_000),
        Command::Move(Motion::Turn(360)), Command::Sleep(5_000),
    ]);
}

#[test]
fn extension_test_does_nothing() {
    assert!(collect(&RequestPacket::TestExtension(5)).is_empty());
    let req = RequestPacket::custom(&vec![Action::ExtensionPush, Action::Turn(3)]).unwrap();
    assert_eq!(collect(&req), vec![Command::Nothing, Command::Move(Motion::Turn(3))]);
}

#[test]
fn comments_are_blanked() {
    let text = b"[ // first\n {\"name\": \"GripperOpen\"} /* x */ ]";
    let out = hybrid::json_text::strip_comments(text).unwrap();
    assert_eq!(out.len(), text.len());
    assert_eq!(&out[..], &b"[         \n {\"name\": \"GripperOpen\"}         ]"[..]);
    let text = b"{\"a\": \"/* kept */\"} # tail";
    let out = hybrid::json_text::strip_comments(text).unwrap();
    assert_eq!(&out[..], &b"{\"a\": \"/* kept */\"}       "[..]);
    assert!(hybrid::json_text::strip_comments(b"[1] /* open").is_none());
    assert!(hybrid::json_text::strip_comments(b"[1 / 2]").is_none());
    assert!(hybrid::json_text::strip_comments(b"\"open string").is_none());
}

#[test]
fn game_script_then_endless_wave() {
    assert_eq!(handle_game(0), Command::Sleep(10_000));
    assert_eq!(handle_game(1), Command::SetEnables(true));
    assert_eq!(handle_game(2), Command::Together(Motion::Drive(160), Motion::GripperOpen));
    assert_eq!(handle_game(4), Command::Together(Motion::ExtensionPush, Motion::Drive(180)));
    assert_eq!(handle_game(26), Command::SetEnables(false));
    assert_eq!(handle_game(27), Command::SleepUntil(85_000));
    assert_eq!(handle_game(28), Command::Move(Motion::GripperClose));
    assert_eq!(handle_game(29), Command::Sleep(100));
    assert_eq!(handle_game(30), Command::Move(Motion::GripperOpen));
    assert_eq!(handle_game(32), Command::Move(Motion::GripperClose));
    assert_eq!(handle_game(1_000_028), Command::Move(Motion::GripperClose));
    assert_eq!(request_command(&RequestPacket::Game, u64::MAX).is_some(), true);
}
