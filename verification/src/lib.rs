//! Control core of a colour-following differential-drive robot.

pub mod control;
pub mod motors;
pub mod pwm;
pub mod sensing;
