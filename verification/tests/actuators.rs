use hybrid::actuators::drivetrain::Drivetrain;
use hybrid::actuators::extension::Extension;
use hybrid::actuators::gripper::Gripper;
use hybrid::actuators::servo::ServoBuilder;
use hybrid::actuators::stepper::{AccMode, NoAcc, OnDrop, Stepper, WithAcc};
use hybrid::packet::Color;
use hybrid::profiles::TrapezoidProfile;
use hybrid::sensors::ultrasonic::Ultrasonic;
use std::cell::Cell;

#[test]
fn convert_steps_counts_one_less() {
    assert_eq!(Stepper::<NoAcc>::convert_steps(5), Some(4));
    assert_eq!(Stepper::<NoAcc>::convert_steps(-5), Some(4));
    assert_eq!(Stepper::<NoAcc>::convert_steps(1), Some(0));
    assert_eq!(Stepper::<NoAcc>::convert_steps(-1), Some(0));
    assert_eq!(Stepper::<NoAcc>::convert_steps(0), None);
    assert_eq!(Stepper::<NoAcc>::convert_steps(i32::MAX), Some(i32::MAX as u32 - 1));
    assert_eq!(Stepper::<NoAcc>::convert_steps(-i32::MAX), Some(i32::MAX as u32 - 1));
}

#[test]
fn update_direction_follows_sign() {
    let mut s = Stepper::<NoAcc>::new();
    assert!(!s.dir_is_high());
    s.update_direction(3);
    assert!(s.dir_is_high());
    s.update_direction(0);
    assert!(s.dir_is_high());
    s.update_direction(-3);
    assert!(!s.dir_is_high());
    s.update_direction(0);
    assert!(!s.dir_is_high());
}

#[test]
fn prepare_step_sets_direction_and_count() {
    let mut s = Stepper::<WithAcc>::new();
    assert_eq!(s.prepare_step(10), Some(9));
    assert!(s.dir_is_high());
    assert_eq!(s.prepare_step(-10), Some(9));
    assert!(!s.dir_is_high());
    assert_eq!(s.prepare_step(0), None);
    assert!(!s.dir_is_high());
}

#[test]
fn instruction_counts_and_frequency() {
    assert_eq!(NoAcc::instruction_count(), 65);
    assert_eq!(WithAcc::instruction_count(), 68);
    assert_eq!(Stepper::<NoAcc>::pio_frequency(1000), 65_000);
    assert_eq!(Stepper::<WithAcc>::pio_frequency(400), 27_200);
}

#[test]
fn on_drop_runs_only_when_asked() {
    let fired = Cell::new(0);
    let guard = OnDrop::new(|| fired.set(fired.get() + 1));
    guard.defuse();
    assert_eq!(fired.get(), 0);
    let guard = OnDrop::new(|| fired.set(fired.get() + 1));
    guard.run();
    assert_eq!(fired.get(), 1);
}

#[test]
fn drivetrain_drive_and_turn() {
    let mut d = Drivetrain::new(TrapezoidProfile::default());
    assert_eq!(d.color(), Color::Blue);
    let (accel, cruise, decel) = d.step(3, true).unwrap();
    // converted to 2 steps: three pulses, a ramp of one
    assert_eq!(accel.as_slice(), &[100]);
    assert_eq!(cruise, 1);
    assert_eq!(decel.as_slice(), &[100]);
    assert!(d.step(0, true).is_none());
    let (accel, cruise, decel) = d.step(-10, false).unwrap();
    assert_eq!(accel.len() + cruise + decel.len(), 10);
}

#[test]
fn drivetrain_mirrors_turns_on_yellow() {
    let mut d = Drivetrain::new(TrapezoidProfile::default());
    assert_eq!(d.oriented_degrees(90), 90);
    d.set_color(Color::Yellow);
    assert_eq!(d.color(), Color::Yellow);
    assert_eq!(d.oriented_degrees(90), -90);
    assert_eq!(d.oriented_degrees(-45), 45);
}

#[test]
fn extension_homing_push_and_pull() {
    let mut e = Extension::new();
    assert_eq!(e.max_steps(), 0);
    assert_eq!(e.push(), None);
    // the switch opened after 500 steps
    let count = 0u32.wrapping_sub(500);
    assert_eq!(e.finish_homing(count), Some(119));
    assert_eq!(e.max_steps(), 380);
    assert_eq!(e.push(), Some(379));
    assert_eq!(e.pull(), Some(377));
    assert_eq!(Extension::default_frequency(), 700 * 65);
    assert_eq!(Extension::home_frequency(), 400 * 66);
    assert_eq!(e.set_frequency(100), 6_500);
}

#[test]
fn extension_short_stroke_goes_negative() {
    let mut e = Extension::new();
    // the switch opened after 100 steps: less than the home offset
    assert_eq!(e.finish_homing(0u32.wrapping_sub(100)), Some(119));
    assert_eq!(e.max_steps(), -20);
    assert_eq!(e.push(), Some(19));
    assert_eq!(e.pull(), Some(21));
}

#[test]
fn servo_rotation_is_linear_and_capped() {
    let servo = ServoBuilder::new().build();
    assert_eq!(servo.period(), 20_000_000);
    assert_eq!(servo.rotate(0), 1_000_000);
    assert_eq!(servo.rotate(90), 90 * 5_555 + 1_000_000);
    assert_eq!(servo.rotate(180), 180 * 5_555 + 1_000_000);
    assert_eq!(servo.rotate(1000), 2_000_000);
    let servo = ServoBuilder::new()
        .set_period(5)
        .set_min_pulse_width(100)
        .set_max_pulse_width(460)
        .build();
    assert_eq!(servo.period(), 5);
    assert_eq!(servo.rotate(10), 120);
    assert_eq!(servo.rotate(200), 460);
}

#[test]
fn gripper_pulses() {
    let g = Gripper::new();
    assert_eq!(g.servo().period(), 1_786_000);
    assert_eq!(g.open(), 50 * 4_888 + 320_000);
    assert_eq!(g.close(), 153 * 4_888 + 320_000);
    assert_eq!(Gripper::actuate_time(), 77_250_000);
}

#[test]
fn ultrasonic_distance() {
    assert_eq!(Ultrasonic::get_distance(1000), 170);
    assert_eq!(Ultrasonic::get_distance(0), 0);
    assert_eq!(Ultrasonic::get_distance(5), 0);
    assert_eq!(Ultrasonic::get_distance(6), 1);
}

#[test]
fn drive_turns_wheels_apart_and_turn_together() {
    let mut d = Drivetrain::new(TrapezoidProfile::default());
    assert!(!d.dir1_is_high() && !d.dir2_is_high());
    d.step(20, true);
    assert!(d.dir1_is_high());
    assert!(!d.dir2_is_high());
    d.step(-20, true);
    assert!(!d.dir1_is_high());
    assert!(d.dir2_is_high());
    d.step(20, false);
    assert!(d.dir1_is_high() && d.dir2_is_high());
    d.step(-20, false);
    assert!(!d.dir1_is_high() && !d.dir2_is_high());
    d.step(0, true);
    assert!(!d.dir1_is_high() && !d.dir2_is_high());
}

#[test]
fn extension_direction_follows_moves() {
    let mut e = Extension::new();
    assert!(!e.dir_is_high());
    e.finish_homing(0u32.wrapping_sub(500));
    assert!(e.dir_is_high());
    e.pull();
    assert!(!e.dir_is_high());
    e.push();
    assert!(e.dir_is_high());
}
