use color_follower::control::DutyFrame;
use color_follower::motors::{MotorConfig, MotorState, Motors};
use color_follower::pwm::PwmChannel;
use color_follower::sensing::{peak_channel, Color, Pilot, Rgb};

#[test]
fn peak_channel_is_the_largest_of_three() {
    assert_eq!(peak_channel(10, 20, 30), 30);
    assert_eq!(peak_channel(10, 30, 20), 30);
    assert_eq!(peak_channel(30, 20, 10), 30);
    assert_eq!(peak_channel(7, 7, 7), 7);
    assert_eq!(peak_channel(0, 0, 0), 0);
    assert_eq!(peak_channel(u16::MAX, 0, u16::MAX), u16::MAX);
    assert_eq!(peak_channel(5, 9, 9), 9);
}

#[test]
fn led_colour_of_each_colour() {
    assert_eq!(Color::Blue.to_rgb(), Rgb { r: 0, g: 0, b: 128 });
    assert_eq!(Color::Red.to_rgb(), Rgb { r: 128, g: 0, b: 0 });
    assert_eq!(Color::Magenta.to_rgb(), Rgb { r: 128, g: 0, b: 128 });
    assert_eq!(Color::Green.to_rgb(), Rgb { r: 0, g: 128, b: 0 });
    assert_eq!(Color::Cyan.to_rgb(), Rgb { r: 0, g: 128, b: 128 });
    assert_eq!(Color::Yellow.to_rgb(), Rgb { r: 128, g: 128, b: 0 });
    assert_eq!(Color::Unknown.to_rgb(), Rgb { r: 0, g: 0, b: 0 });
}

#[test]
fn pilot_starts_with_stop() {
    assert_eq!(Pilot::new().state(), MotorState::Stop);
}

#[test]
fn red_while_stopped_sends_nothing() {
    let mut pilot = Pilot::new();
    assert_eq!(pilot.observe(Color::Red), None);
    assert_eq!(pilot.state(), MotorState::Stop);
}

#[test]
fn magenta_sends_forward_once() {
    let mut pilot = Pilot::new();
    assert_eq!(pilot.observe(Color::Magenta), Some(MotorState::Forward));
    assert_eq!(pilot.state(), MotorState::Forward);
    assert_eq!(pilot.observe(Color::Magenta), None);
    assert_eq!(pilot.state(), MotorState::Forward);
}

#[test]
fn red_after_forward_sends_stop() {
    let mut pilot = Pilot::new();
    pilot.observe(Color::Magenta);
    assert_eq!(pilot.observe(Color::Red), Some(MotorState::Stop));
    assert_eq!(pilot.state(), MotorState::Stop);
}

#[test]
fn other_colours_leave_the_motion_as_it_is() {
    let others = [Color::Blue, Color::Green, Color::Cyan, Color::Yellow, Color::Unknown];
    let mut pilot = Pilot::new();
    for color in others {
        assert_eq!(pilot.observe(color), None);
        assert_eq!(pilot.state(), MotorState::Stop);
    }
    pilot.observe(Color::Magenta);
    for color in others {
        assert_eq!(pilot.observe(color), None);
        assert_eq!(pilot.state(), MotorState::Forward);
    }
}

#[test]
fn sensed_colours_drive_the_loop() {
    let mut motors = Motors::new(MotorConfig::new(100, 94, false, true)).unwrap();
    let mut control = motors
        .start(PwmChannel::new(255), PwmChannel::new(255), PwmChannel::new(255), PwmChannel::new(255))
        .unwrap();
    let mut pilot = Pilot::new();
    let mut pending: Vec<MotorState> = Vec::new();
    for color in [Color::Green, Color::Magenta, Color::Magenta, Color::Blue] {
        if let Some(command) = pilot.observe(color) {
            pending.push(command);
        }
    }
    assert_eq!(pending, vec![MotorState::Forward]);
    let out = control.tick(&pending);
    assert_eq!(out, DutyFrame { left_1: 0, left_2: 255, right_1: 239, right_2: 0 });
    pending.clear();
    for color in [Color::Red, Color::Magenta, Color::Red] {
        if let Some(command) = pilot.observe(color) {
            pending.push(command);
        }
    }
    assert_eq!(pending, vec![MotorState::Stop, MotorState::Forward, MotorState::Stop]);
    let out = control.tick(&pending);
    assert_eq!(out, DutyFrame { left_1: 0, left_2: 0, right_1: 0, right_2: 0 });
    assert_eq!(control.state(), MotorState::Stop);
}
