use color_follower::motors::{MotorDirection, MotorPair};
use color_follower::pwm::PwmChannel;

#[test]
fn new_channel_is_idle() {
    let ch = PwmChannel::new(255);
    assert_eq!(ch.get_duty(), 0);
    assert_eq!(ch.get_max_duty(), 255);
}

#[test]
fn set_duty_within_range_is_taken_as_is() {
    let mut ch = PwmChannel::new(255);
    ch.set_duty(200);
    assert_eq!(ch.get_duty(), 200);
    ch.set_duty(255);
    assert_eq!(ch.get_duty(), 255);
    ch.set_duty(0);
    assert_eq!(ch.get_duty(), 0);
    assert_eq!(ch.get_max_duty(), 255);
}

#[test]
fn set_duty_beyond_range_is_cut_to_the_maximum() {
    let mut ch = PwmChannel::new(255);
    ch.set_duty(256);
    assert_eq!(ch.get_duty(), 255);
    ch.set_duty(u32::MAX);
    assert_eq!(ch.get_duty(), 255);
    assert_eq!(ch.get_max_duty(), 255);
}

#[test]
fn channel_without_resolution_stays_at_zero() {
    let mut ch = PwmChannel::new(0);
    ch.set_duty(1);
    assert_eq!(ch.get_duty(), 0);
}

#[test]
fn new_pair_stops_both_legs() {
    let mut side_1 = PwmChannel::new(255);
    let mut side_2 = PwmChannel::new(1023);
    side_1.set_duty(100);
    side_2.set_duty(1000);
    let pair = MotorPair::new(side_1, side_2);
    assert_eq!(pair.duties(), (0, 0));
}

#[test]
fn pair_drive_follows_the_duty_driver() {
    let mut pair = MotorPair::new(PwmChannel::new(255), PwmChannel::new(1023));
    pair.drive(MotorDirection::Forward, 50, false);
    assert_eq!(pair.duties(), (0, 511));
    pair.drive(MotorDirection::Backwards, 50, false);
    assert_eq!(pair.duties(), (127, 0));
    pair.drive(MotorDirection::Forward, 50, true);
    assert_eq!(pair.duties(), (127, 0));
    pair.drive(MotorDirection::Stop, 50, true);
    assert_eq!(pair.duties(), (0, 0));
}

#[test]
fn pair_stop_clears_a_driven_side() {
    let mut pair = MotorPair::new(PwmChannel::new(255), PwmChannel::new(255));
    pair.drive(MotorDirection::Backwards, 100, false);
    assert_eq!(pair.duties(), (255, 0));
    pair.stop();
    assert_eq!(pair.duties(), (0, 0));
}
