//! Motion commands, the per-side directions they resolve to, and the duty
//! driver that turns a direction into the duties of one side's two legs.

use vstd::prelude::*;
use crate::control::{ControlLoop, ControlView};
use crate::pwm::{PwmChannel, PwmView};

verus! {

/// Motion the robot is asked for.
#[derive(Clone, Copy, Debug, PartialEq, Eq, Structural)]
pub enum MotorState {
    Stop,
    Left,
    Right,
    Forward,
    Backwards,
}

/// Rotation intended for one side of the drive.
#[derive(Clone, Copy, Debug, PartialEq, Eq, Structural)]
pub enum MotorDirection {
    Stop,
    Forward,
    Backwards,
}

impl MotorState {
    /// Rotation of the left side under this motion.
    pub open spec fn left_direction(self) -> MotorDirection {
        match self {
            MotorState::Stop => MotorDirection::Stop,
            MotorState::Forward => MotorDirection::Forward,
            MotorState::Backwards => MotorDirection::Backwards,
            MotorState::Left => MotorDirection::Stop,
            MotorState::Right => MotorDirection::Forward,
        }
    }

    /// Rotation of the right side under this motion.
    pub open spec fn right_direction(self) -> MotorDirection {
        match self {
            MotorState::Stop => MotorDirection::Stop,
            MotorState::Forward => MotorDirection::Forward,
            MotorState::Backwards => MotorDirection::Backwards,
            MotorState::Left => MotorDirection::Forward,
            MotorState::Right => MotorDirection::Stop,
        }
    }

    /// Resolves the motion to the rotation of the left and of the right
    /// side, in that order. A turn stops the side it turns towards.
    pub fn directions(self) -> (sides: (MotorDirection, MotorDirection))
        ensures
            sides.0 == self.left_direction(),
            sides.1 == self.right_direction(),
    {
        match self {
            MotorState::Stop => (MotorDirection::Stop, MotorDirection::Stop),
            MotorState::Forward => (MotorDirection::Forward, MotorDirection::Forward),
            MotorState::Backwards => (MotorDirection::Backwards, MotorDirection::Backwards),
            MotorState::Left => (MotorDirection::Stop, MotorDirection::Forward),
            MotorState::Right => (MotorDirection::Forward, MotorDirection::Stop),
        }
    }
}

impl MotorDirection {
    /// The opposite rotation; a stopped side stays stopped.
    pub open spec fn inverted(self) -> MotorDirection {
        match self {
            MotorDirection::Stop => MotorDirection::Stop,
            MotorDirection::Forward => MotorDirection::Backwards,
            MotorDirection::Backwards => MotorDirection::Forward,
        }
    }

    /// The rotation a side mounted with the given inversion flag has to be
    /// driven in to turn this way.
    pub open spec fn oriented(self, invert: bool) -> MotorDirection {
        if invert {
            self.inverted()
        } else {
            self
        }
    }

    /// Swaps forward and backward.
    pub fn invert(&self) -> (r: Self)
        ensures
            r == self.inverted(),
        no_unwind
    {
        match self {
            MotorDirection::Stop => MotorDirection::Stop,
            MotorDirection::Forward => MotorDirection::Backwards,
            MotorDirection::Backwards => MotorDirection::Forward,
        }
    }

    /// Inverting twice gives the direction back.
    pub proof fn lemma_invert_involution(self)
        ensures
            self.inverted().inverted() == self,
    {
    }
}

/// Calibration of the two sides: how hard each is driven, in percent of its
/// legs' maximum duty, and whether it is mounted the other way round.
#[derive(Clone, Copy, Debug, PartialEq, Eq, Structural)]
pub struct MotorConfig {
    pub left_duty: u32,
    pub right_duty: u32,
    pub left_invert: bool,
    pub right_invert: bool,
}

impl MotorConfig {
    /// Records the calibration as given. The percentages are not checked:
    /// one above 100 drives its side at full duty.
    pub fn new(left_duty: u32, right_duty: u32, left_invert: bool, right_invert: bool) -> (config: Self)
        ensures
            config == (MotorConfig { left_duty, right_duty, left_invert, right_invert }),
    {
        Self { left_duty, right_duty, left_invert, right_invert }
    }
}

/// Duty that drives a leg of resolution `max_duty` at `percent` percent:
/// `percent * max_duty / 100`, rounded down, and never more than `max_duty`.
pub open spec fn duty_level(percent: nat, max_duty: nat) -> nat {
    if percent * max_duty / 100 <= max_duty {
        percent * max_duty / 100
    } else {
        max_duty
    }
}

/// Up to 100 percent the share fits the leg, so the level is the exact
/// share of the maximum duty.
pub proof fn lemma_duty_level_exact(percent: nat, max_duty: nat)
    requires
        percent <= 100,
    ensures
        percent * max_duty / 100 <= max_duty,
        duty_level(percent, max_duty) == percent * max_duty / 100,
{
    assert(percent * max_duty <= 100 * max_duty) by (nonlinear_arith)
        requires
            percent <= 100,
    ;
}

/// At 100 percent a leg is driven at its full maximum, and at 0 percent not
/// at all.
pub proof fn lemma_duty_level_ends(max_duty: nat)
    ensures
        duty_level(100, max_duty) == max_duty,
        duty_level(0, max_duty) == 0,
{
}

/// Computes `duty_level` without overflow.
pub fn scaled_duty(percent: u32, max_duty: u32) -> (duty: u32)
    ensures
        duty == duty_level(percent as nat, max_duty as nat),
    no_unwind
{
    assert(percent * max_duty <= 0xffff_ffff * 0xffff_ffff) by (nonlinear_arith)
        requires
            percent <= 0xffff_ffff,
            max_duty <= 0xffff_ffff,
    ;
    let scaled: u64 = (percent as u64) * (max_duty as u64) / 100;
    if scaled <= max_duty as u64 {
        scaled as u32
    } else {
        max_duty
    }
}

/// What one side's two legs are, as numbers.
pub struct PairView {
    pub side_1: PwmView,
    pub side_2: PwmView,
}

impl PairView {
    /// At most one leg carries a duty.
    pub open spec fn exclusive(self) -> bool {
        self.side_1.duty == 0 || self.side_2.duty == 0
    }

    /// Neither leg carries a duty.
    pub open spec fn is_stopped(self) -> bool {
        self.side_1.duty == 0 && self.side_2.duty == 0
    }

    /// The pair with both legs at duty 0.
    pub open spec fn stopped(self) -> PairView {
        PairView { side_1: self.side_1.with_duty(0), side_2: self.side_2.with_duty(0) }
    }
}

/// Duty of a pair's first leg, which carries the backward drive.
pub open spec fn first_leg_duty(dir: MotorDirection, percent: nat, max_duty: nat) -> nat {
    if dir == MotorDirection::Backwards {
        duty_level(percent, max_duty)
    } else {
        0
    }
}

/// Duty of a pair's second leg, which carries the forward drive.
pub open spec fn second_leg_duty(dir: MotorDirection, percent: nat, max_duty: nat) -> nat {
    if dir == MotorDirection::Forward {
        duty_level(percent, max_duty)
    } else {
        0
    }
}

/// A pair after it is driven in direction `dir` at `percent` percent, on a
/// side mounted with inversion flag `invert`.
pub open spec fn driven_pair(pair: PairView, dir: MotorDirection, percent: nat, invert: bool) -> PairView {
    PairView {
        side_1: pair.side_1.with_duty(first_leg_duty(dir.oriented(invert), percent, pair.side_1.max_duty)),
        side_2: pair.side_2.with_duty(second_leg_duty(dir.oriented(invert), percent, pair.side_2.max_duty)),
    }
}

/// Driving leaves each leg's resolution as it was and keeps each duty
/// within it.
pub proof fn lemma_driven_pair_in_range(pair: PairView, dir: MotorDirection, percent: nat, invert: bool)
    ensures
        driven_pair(pair, dir, percent, invert).side_1.max_duty == pair.side_1.max_duty,
        driven_pair(pair, dir, percent, invert).side_2.max_duty == pair.side_2.max_duty,
        driven_pair(pair, dir, percent, invert).side_1.duty <= pair.side_1.max_duty,
        driven_pair(pair, dir, percent, invert).side_2.duty <= pair.side_2.max_duty,
{
}

/// However a pair is driven, at most one of its legs carries a duty
/// afterwards.
pub proof fn lemma_driven_pair_exclusive(pair: PairView, dir: MotorDirection, percent: nat, invert: bool)
    ensures
        driven_pair(pair, dir, percent, invert).exclusive(),
{
}

/// Driving a pair a second time in the same direction, at the same
/// percentage and with the same inversion flag leaves both legs as the
/// first time left them.
pub proof fn lemma_driven_pair_idempotent(pair: PairView, dir: MotorDirection, percent: nat, invert: bool)
    ensures
        driven_pair(driven_pair(pair, dir, percent, invert), dir, percent, invert) == driven_pair(
            pair,
            dir,
            percent,
            invert,
        ),
{
}

/// A side mounted the other way round is driven in a direction as a side
/// mounted straight is driven in the opposite one.
pub proof fn lemma_inversion_swaps_direction(pair: PairView, dir: MotorDirection, percent: nat)
    ensures
        driven_pair(pair, dir, percent, true) == driven_pair(pair, dir.inverted(), percent, false),
{
}

/// Forward on a side mounted straight, at a percentage whose share fits the
/// second leg: the first leg is at 0 and the second at the exact share of
/// its maximum.
pub proof fn lemma_forward_drive(pair: PairView, percent: nat)
    requires
        percent * pair.side_2.max_duty / 100 <= pair.side_2.max_duty,
    ensures
        driven_pair(pair, MotorDirection::Forward, percent, false).side_1.duty == 0,
        driven_pair(pair, MotorDirection::Forward, percent, false).side_2.duty == percent
            * pair.side_2.max_duty / 100,
{
}

/// Forward on a side mounted the other way round, at a percentage whose
/// share fits the first leg: the first leg is at the exact share of its
/// maximum and the second at 0, as for backward on a side mounted straight.
pub proof fn lemma_forward_drive_inverted(pair: PairView, percent: nat)
    requires
        percent * pair.side_1.max_duty / 100 <= pair.side_1.max_duty,
    ensures
        driven_pair(pair, MotorDirection::Forward, percent, true).side_1.duty == percent
            * pair.side_1.max_duty / 100,
        driven_pair(pair, MotorDirection::Forward, percent, true).side_2.duty == 0,
        driven_pair(pair, MotorDirection::Forward, percent, true) == driven_pair(
            pair,
            MotorDirection::Backwards,
            percent,
            false,
        ),
{
}

/// The two legs that feed one side's motor. Driving both at once is
/// forbidden: at every moment at most one of them carries a duty.
#[derive(Debug)]
pub struct MotorPair {
    side_1: PwmChannel,
    side_2: PwmChannel,
}

impl View for MotorPair {
    type V = PairView;

    closed spec fn view(&self) -> PairView {
        PairView { side_1: self.side_1@, side_2: self.side_2@ }
    }
}

impl MotorPair {
    #[verifier::type_invariant]
    spec fn one_leg_at_most(self) -> bool {
        self.side_1@.duty == 0 || self.side_2@.duty == 0
    }

    /// Joins two legs into a pair and stops both, whatever duty they held.
    pub fn new(side_1: PwmChannel, side_2: PwmChannel) -> (pair: Self)
        ensures
            pair@ == (PairView { side_1: side_1@, side_2: side_2@ }).stopped(),
    {
        let mut side_1 = side_1;
        let mut side_2 = side_2;
        side_1.set_duty(0);
        side_2.set_duty(0);
        MotorPair { side_1, side_2 }
    }

    /// Stops both legs.
    pub fn stop(&mut self)
        ensures
            final(self)@ == old(self)@.stopped(),
    {
        self.side_1.set_duty(0);
        self.side_2.set_duty(0);
    }

    /// Drives the side in direction `dir` at `motor_duty` percent, as
    /// `Motors::driver_set` does with the two legs.
    pub fn drive(&mut self, dir: MotorDirection, motor_duty: u32, invert: bool)
        ensures
            final(self)@ == driven_pair(old(self)@, dir, motor_duty as nat, invert),
    {
        Motors::driver_set(&mut self.side_1, &mut self.side_2, dir, motor_duty, invert);
    }

    /// The duties of the first and of the second leg, of which at most one
    /// is not 0.
    pub fn duties(&self) -> (duties: (u32, u32))
        ensures
            duties.0 == self@.side_1.duty,
            duties.1 == self@.side_2.duty,
            self@.exclusive(),
    {
        proof {
            use_type_invariant(self);
        }
        (self.side_1.get_duty(), self.side_2.get_duty())
    }
}

/// One of the four legs of the drive.
#[derive(Clone, Copy, Debug, PartialEq, Eq, Structural)]
pub enum Leg {
    Left1,
    Left2,
    Right1,
    Right2,
}

/// Why the drive cannot go on.
#[derive(Clone, Copy, Debug, PartialEq, Eq, Structural)]
pub enum MotorError {
    /// The hardware refused the duty written to this leg.
    DutyWrite(Leg),
}

/// The drive of both sides, as calibrated.
#[derive(Debug)]
pub struct Motors {
    config: MotorConfig,
}

impl View for Motors {
    type V = MotorConfig;

    closed spec fn view(&self) -> MotorConfig {
        self.config
    }
}

impl Motors {
    /// Takes the calibration as it is. This cannot fail.
    pub fn new(config: MotorConfig) -> (r: Result<Self, MotorError>)
        ensures
            r matches Ok(motors) && motors@ == config,
    {
        Ok(Self { config })
    }

    /// The calibration the drive was made with.
    pub fn config(&self) -> (config: MotorConfig)
        ensures
            config == self@,
    {
        self.config
    }

    /// Sets the two legs of one side for direction `dir`.
    ///
    /// With `invert` the direction is swapped first. A stopped side has
    /// both legs at 0; a side going forward has its second leg at
    /// `motor_duty` percent of that leg's maximum and its first at 0; a
    /// side going backward has its first leg at `motor_duty` percent of
    /// that leg's maximum and its second at 0. A percentage above 100
    /// drives the leg at its maximum.
    pub fn driver_set(
        inp_1: &mut PwmChannel,
        inp_2: &mut PwmChannel,
        dir: MotorDirection,
        motor_duty: u32,
        invert: bool,
    )
        ensures
            (PairView { side_1: final(inp_1)@, side_2: final(inp_2)@ }) == driven_pair(
                (PairView { side_1: old(inp_1)@, side_2: old(inp_2)@ }),
                dir,
                motor_duty as nat,
                invert,
            ),
            final(inp_1)@.duty == 0 || final(inp_2)@.duty == 0,
        no_unwind
    {
        let mut dir = dir;
        if invert {
            dir = dir.invert();
        }
        match dir {
            MotorDirection::Stop => {
                inp_1.set_duty(0);
                inp_2.set_duty(0);
            },
            MotorDirection::Forward => {
                inp_1.set_duty(0);
                let duty: u32 = scaled_duty(motor_duty, inp_2.get_max_duty());
                inp_2.set_duty(duty);
            },
            MotorDirection::Backwards => {
                let duty: u32 = scaled_duty(motor_duty, inp_1.get_max_duty());
                inp_1.set_duty(duty);
                inp_2.set_duty(0);
            },
        }
    }

    /// Sets the control loop up over the four legs: the two of the left
    /// side, then the two of the right side. Whatever duty the legs held,
    /// all four are stopped, and the loop starts out commanded to `Stop`.
    /// This cannot fail, and the calibration stays as it is.
    pub fn start(
        &mut self,
        motor_left_1: PwmChannel,
        motor_left_2: PwmChannel,
        motor_right_1: PwmChannel,
        motor_right_2: PwmChannel,
    ) -> (r: Result<ControlLoop, MotorError>)
        ensures
            final(self)@ == old(self)@,
            r matches Ok(control) && control@ == ControlView::initial(
                old(self)@,
                (PairView { side_1: motor_left_1@, side_2: motor_left_2@ }),
                (PairView { side_1: motor_right_1@, side_2: motor_right_2@ }),
            ),
            r matches Ok(control) && control@.state == MotorState::Stop && control@.left.is_stopped()
                && control@.right.is_stopped(),
    {
        let left = MotorPair::new(motor_left_1, motor_left_2);
        let right = MotorPair::new(motor_right_1, motor_right_2);
        Ok(ControlLoop::new(self.config, left, right))
    }
}

} // verus!
