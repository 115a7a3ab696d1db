//! The deciding side of the robot: what a sensed colour asks of the drive,
//! and when that is worth a command.

use vstd::prelude::*;
use crate::motors::MotorState;

verus! {

/// The strongest of the three colour channels of a reading, by which the
/// reading is brought to scale.
pub open spec fn peak(red: u16, green: u16, blue: u16) -> u16 {
    if red >= green && red >= blue {
        red
    } else if green >= blue {
        green
    } else {
        blue
    }
}

/// Finds the strongest of the three colour channels of a reading.
pub fn peak_channel(red: u16, green: u16, blue: u16) -> (max: u16)
    ensures
        max == peak(red, green, blue),
        max >= red && max >= green && max >= blue,
        max == red || max == green || max == blue,
{
    let mut max: u16 = red;
    if green > max {
        max = green;
    }
    if blue > max {
        max = blue;
    }
    max
}

/// A colour as the sensor's reading is classified.
#[derive(Clone, Copy, Debug, PartialEq, Eq, Structural)]
pub enum Color {
    Blue,
    Red,
    Magenta,
    Green,
    Cyan,
    Yellow,
    Unknown,
}

/// A colour for the indicator LED, by its three channels.
#[derive(Clone, Copy, Debug, PartialEq, Eq, Structural)]
pub struct Rgb {
    pub r: u8,
    pub g: u8,
    pub b: u8,
}

impl Color {
    /// The LED colour that shows this colour: each channel the colour has
    /// is lit at half brightness, and `Unknown` is dark.
    pub open spec fn rgb(self) -> Rgb {
        match self {
            Color::Blue => Rgb { r: 0, g: 0, b: 128 },
            Color::Red => Rgb { r: 128, g: 0, b: 0 },
            Color::Magenta => Rgb { r: 128, g: 0, b: 128 },
            Color::Green => Rgb { r: 0, g: 128, b: 0 },
            Color::Cyan => Rgb { r: 0, g: 128, b: 128 },
            Color::Yellow => Rgb { r: 128, g: 128, b: 0 },
            Color::Unknown => Rgb { r: 0, g: 0, b: 0 },
        }
    }

    /// The motion this colour asks for when `current` is in force: red
    /// stops the robot, magenta sends it forward, and any other colour
    /// leaves the motion as it is.
    pub open spec fn steers(self, current: MotorState) -> MotorState {
        match self {
            Color::Red => MotorState::Stop,
            Color::Magenta => MotorState::Forward,
            _ => current,
        }
    }

    /// The LED colour that shows this colour.
    pub fn to_rgb(&self) -> (led: Rgb)
        ensures
            led == self.rgb(),
    {
        match self {
            Color::Blue => Rgb { r: 0, g: 0, b: 128 },
            Color::Red => Rgb { r: 128, g: 0, b: 0 },
            Color::Magenta => Rgb { r: 128, g: 0, b: 128 },
            Color::Green => Rgb { r: 0, g: 128, b: 0 },
            Color::Cyan => Rgb { r: 0, g: 128, b: 128 },
            Color::Yellow => Rgb { r: 128, g: 128, b: 0 },
            Color::Unknown => Rgb { r: 0, g: 0, b: 0 },
        }
    }
}

/// The deciding loop's record of the motion it last asked for.
#[derive(Debug)]
pub struct Pilot {
    state: MotorState,
}

impl View for Pilot {
    type V = MotorState;

    closed spec fn view(&self) -> MotorState {
        self.state
    }
}

impl Pilot {
    /// A pilot that has asked for nothing yet: the drive starts stopped.
    pub fn new() -> (pilot: Self)
        ensures
            pilot@ == MotorState::Stop,
    {
        Pilot { state: MotorState::Stop }
    }

    /// The motion last asked for.
    pub fn state(&self) -> (state: MotorState)
        ensures
            state == self@,
    {
        self.state
    }

    /// Takes in a sensed colour. Returns the command to send to the drive,
    /// which there is only when the colour asks for another motion than
    /// the one last asked for.
    pub fn observe(&mut self, color: Color) -> (command: Option<MotorState>)
        ensures
            final(self)@ == color.steers(old(self)@),
            command == if final(self)@ != old(self)@ {
                Some(final(self)@)
            } else {
                None::<MotorState>
            },
    {
        let new_state: MotorState = match color {
            Color::Red => MotorState::Stop,
            Color::Magenta => MotorState::Forward,
            _ => self.state,
        };
        if self.state != new_state {
            self.state = new_state;
            Some(new_state)
        } else {
            None
        }
    }
}

} // verus!
