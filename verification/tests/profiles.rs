use hybrid::profiles::{MotionProfile, SCurveProfile, TrapezoidProfile};

#[test]
fn trapezoid_default_short_move() {
    let p = TrapezoidProfile::default();
    assert_eq!(p.start_delay, 100);
    assert_eq!(p.acceleration, 1);
    let (accel, cruise, decel) = p.delays(10);
    assert_eq!(accel.as_slice(), &[100, 99, 98, 97, 96]);
    assert_eq!(cruise, 1);
    assert_eq!(decel.as_slice(), &[96, 97, 98, 99, 100]);
}

#[test]
fn trapezoid_long_move_has_full_ramps() {
    let p = TrapezoidProfile { start_delay: 10, acceleration: 3 };
    let (accel, cruise, decel) = p.delays(100);
    assert_eq!(accel.as_slice(), &[10, 7, 4]);
    assert_eq!(cruise, 101 - 6);
    assert_eq!(decel.as_slice(), &[4, 7, 10]);
}

#[test]
fn trapezoid_zero_steps() {
    let p = TrapezoidProfile::default();
    let (accel, cruise, decel) = p.delays(0);
    assert!(accel.is_empty());
    assert_eq!(cruise, 1);
    assert!(decel.is_empty());
}

#[test]
fn trapezoid_ramp_longer_than_buffer_is_cut() {
    let p = TrapezoidProfile { start_delay: 1000, acceleration: 1 };
    let (accel, cruise, decel) = p.delays(2000);
    assert_eq!(accel.len(), 256);
    assert_eq!(accel[0], 1000);
    assert_eq!(accel[255], 745);
    assert_eq!(cruise, 1);
    assert_eq!(decel.len(), 256);
    assert_eq!(decel[0], 1);
    assert_eq!(decel[255], 256);
}

#[test]
fn trapezoid_pulses_add_up_and_mirror() {
    let p = TrapezoidProfile { start_delay: 50, acceleration: 4 };
    for steps in [0u32, 1, 2, 7, 20, 23, 24, 25, 1000] {
        let (accel, cruise, decel) = p.delays(steps);
        assert_eq!(cruise + accel.len() + decel.len(), steps as usize + 1);
        let mut back: Vec<u32> = accel.iter().copied().collect();
        back.reverse();
        assert_eq!(decel.as_slice(), back.as_slice());
        for w in accel.windows(2) {
            assert_eq!(w[0], w[1] + 4);
        }
        assert!(accel.iter().all(|&d| 4 <= d && d <= 50));
    }
}

#[test]
fn scurve_default_short_move() {
    let p = SCurveProfile::default();
    assert_eq!((p.start_delay, p.acceleration, p.jerk), (100, 1, 1));
    let (accel, cruise, decel) = p.delays(10);
    assert_eq!(accel.as_slice(), &[100, 99, 98, 98, 98]);
    assert_eq!(cruise, 1);
    assert_eq!(decel.as_slice(), &[98, 98, 98, 99, 100]);
}

#[test]
fn scurve_default_long_move() {
    let p = SCurveProfile::default();
    let (accel, cruise, decel) = p.delays(1000);
    assert_eq!(accel.len(), 100);
    assert_eq!(cruise, 1001 - 200);
    let mut back: Vec<u32> = accel.iter().copied().collect();
    back.reverse();
    assert_eq!(decel.as_slice(), back.as_slice());
    for w in accel.windows(2) {
        assert!(w[1] <= w[0]);
    }
}

#[test]
fn scurve_jerk_limits_the_drop() {
    let p = SCurveProfile { start_delay: 40, acceleration: 5, jerk: 2 };
    // ramp of 8 pulses, half of 4: drops 0, 2, 4, 5, then 5, 3, 1, 0
    let (accel, cruise, decel) = p.delays(30);
    assert_eq!(accel.as_slice(), &[40, 38, 34, 29, 24, 21, 20, 20]);
    assert_eq!(cruise, 31 - 16);
    assert_eq!(decel.as_slice(), &[20, 20, 21, 24, 29, 34, 38, 40]);
}

#[test]
fn scurve_delays_saturate_at_zero() {
    let p = SCurveProfile { start_delay: 4, acceleration: 2, jerk: 100 };
    // ramp of 2 pulses, half of 1: drops 0 then 2
    let (accel, cruise, decel) = p.delays(9);
    assert_eq!(accel.as_slice(), &[4, 2]);
    assert_eq!(cruise, 6);
    assert_eq!(decel.as_slice(), &[2, 4]);
}

use hybrid::actuators::stepper::{Stepper, WithAcc};
use hybrid::profiles::power::{mirror_profile, power_ramp_lengths};
use hybrid::profiles::pulse_delays_of;

#[test]
fn pulse_delays_cruise_at_ramp_speed() {
    let p = TrapezoidProfile::default();
    let d = p.delays(10);
    let pulses = pulse_delays_of(&d, p.start_delay);
    assert_eq!(pulses, vec![100, 99, 98, 97, 96, 96, 96, 97, 98, 99, 100]);
    assert_eq!(pulses.len(), 11);
    assert_eq!(Stepper::<WithAcc>::delay_count(&pulses), Some(10));
    assert_eq!(Stepper::<WithAcc>::delay_count(&[]), None);
    assert_eq!(Stepper::<WithAcc>::delay_count(&[7]), Some(0));
    let p = TrapezoidProfile { start_delay: 5, acceleration: 10 };
    let d = p.delays(3);
    assert_eq!(pulse_delays_of(&d, p.start_delay), vec![5, 5, 5, 5]);
}

#[test]
fn pulse_count_matches_steps() {
    let p = SCurveProfile::default();
    for steps in [0u32, 1, 5, 199, 200, 201, 5000] {
        let d = p.delays(steps);
        assert_eq!(pulse_delays_of(&d, p.start_delay).len(), steps as usize + 1);
    }
}

#[test]
fn power_ramp_and_coast_lengths() {
    assert_eq!(power_ramp_lengths(10, 100), (10, 80));
    assert_eq!(power_ramp_lengths(60, 100), (50, 0));
    assert_eq!(power_ramp_lengths(60, 101), (50, 1));
    assert_eq!(power_ramp_lengths(0, 7), (0, 7));
}

#[test]
fn power_profile_mirrors_its_ramp() {
    let v = mirror_profile(&[30, 20, 15], 12, 2);
    assert_eq!(v.as_slice(), &[30, 20, 15, 12, 12, 15, 20, 30]);
    let mut back: Vec<u32> = v.iter().copied().collect();
    back.reverse();
    assert_eq!(v.as_slice(), back.as_slice());
    let v = mirror_profile(&[], 9, 3);
    assert_eq!(v.as_slice(), &[9, 9, 9]);
}

#[test]
fn power_profile_is_cut_at_the_buffer() {
    let ramp: Vec<u32> = (0..200).map(|i| 1000 - i).collect();
    let v = mirror_profile(&ramp, 7, 100);
    assert_eq!(v.len(), 256);
    assert_eq!(v[199], 801);
    assert_eq!(v[200], 7);
    assert_eq!(v[255], 7);
    let ramp: Vec<u32> = (0..300).collect();
    let v = mirror_profile(&ramp, 7, 0);
    assert_eq!(v.as_slice(), &ramp[..256]);
}
