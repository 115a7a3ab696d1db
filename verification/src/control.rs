//! The control loop of the drive: it keeps the motion last commanded and,
//! tick after tick, sets the four legs for it.

use vstd::prelude::*;
use crate::motors::{
    driven_pair, Leg, MotorConfig, MotorDirection, MotorError, MotorPair, MotorState, PairView,
};

verus! {

/// Pause between two ticks, in milliseconds.
pub const TICK_INTERVAL_MS: u32 = 10;

/// The motion in force after the commands in `pending`, oldest first, have
/// arrived: the newest of them, or `current` if there is none.
pub open spec fn latest(current: MotorState, pending: Seq<MotorState>) -> MotorState {
    if pending.len() == 0 {
        current
    } else {
        pending.last()
    }
}

/// What the control loop is, as values.
pub struct ControlView {
    pub config: MotorConfig,
    pub state: MotorState,
    pub left: PairView,
    pub right: PairView,
}

impl ControlView {
    /// The loop as it is set up over two pairs: commanded to `Stop`, all
    /// four legs stopped.
    pub open spec fn initial(config: MotorConfig, left: PairView, right: PairView) -> ControlView {
        ControlView { config, state: MotorState::Stop, left: left.stopped(), right: right.stopped() }
    }

    /// The loop after one tick in which the commands in `pending` arrived,
    /// oldest first.
    pub open spec fn after_tick(self, pending: Seq<MotorState>) -> ControlView {
        let state = latest(self.state, pending);
        ControlView {
            config: self.config,
            state,
            left: driven_pair(
                self.left,
                state.left_direction(),
                self.config.left_duty as nat,
                self.config.left_invert,
            ),
            right: driven_pair(
                self.right,
                state.right_direction(),
                self.config.right_duty as nat,
                self.config.right_invert,
            ),
        }
    }
}

/// The duties of the four legs at one moment, as they are to be written to
/// the hardware.
#[derive(Clone, Copy, Debug, PartialEq, Eq, Structural)]
pub struct DutyFrame {
    pub left_1: u32,
    pub left_2: u32,
    pub right_1: u32,
    pub right_2: u32,
}

impl DutyFrame {
    /// The frame holds the duties of `control`'s four legs.
    pub open spec fn shows(self, control: ControlView) -> bool {
        &&& self.left_1 == control.left.side_1.duty
        &&& self.left_2 == control.left.side_2.duty
        &&& self.right_1 == control.right.side_1.duty
        &&& self.right_2 == control.right.side_2.duty
    }
}

/// What the hardware answered to the four writes of one frame: `true` for a
/// leg that took its duty.
#[derive(Clone, Copy, Debug, PartialEq, Eq, Structural)]
pub struct WriteReport {
    pub left_1: bool,
    pub left_2: bool,
    pub right_1: bool,
    pub right_2: bool,
}

impl WriteReport {
    /// The first leg that refused its duty, in the order left first, then
    /// right, first leg before second.
    pub open spec fn first_refused(self) -> Option<Leg> {
        if !self.left_1 {
            Some(Leg::Left1)
        } else if !self.left_2 {
            Some(Leg::Left2)
        } else if !self.right_1 {
            Some(Leg::Right1)
        } else if !self.right_2 {
            Some(Leg::Right2)
        } else {
            None
        }
    }

    /// Judges a frame once all four legs have been written. The frame
    /// stands only if every leg took its duty. Otherwise the drive is half
    /// set and must not go on: the first leg that refused is named.
    pub fn verdict(&self) -> (r: Result<(), MotorError>)
        ensures
            r is Ok <==> self.left_1 && self.left_2 && self.right_1 && self.right_2,
            r == match self.first_refused() {
                Some(leg) => Err::<(), MotorError>(MotorError::DutyWrite(leg)),
                None => Ok::<(), MotorError>(()),
            },
    {
        if !self.left_1 {
            Err(MotorError::DutyWrite(Leg::Left1))
        } else if !self.left_2 {
            Err(MotorError::DutyWrite(Leg::Left2))
        } else if !self.right_1 {
            Err(MotorError::DutyWrite(Leg::Right1))
        } else if !self.right_2 {
            Err(MotorError::DutyWrite(Leg::Right2))
        } else {
            Ok(())
        }
    }
}

/// The control loop's state: the calibration, the motion last commanded,
/// and the legs of both sides, which it alone owns.
#[derive(Debug)]
pub struct ControlLoop {
    config: MotorConfig,
    state: MotorState,
    left: MotorPair,
    right: MotorPair,
}

impl View for ControlLoop {
    type V = ControlView;

    closed spec fn view(&self) -> ControlView {
        ControlView { config: self.config, state: self.state, left: self.left@, right: self.right@ }
    }
}

impl ControlLoop {
    /// Sets the loop up over the pairs of the left and of the right side:
    /// both are stopped, and the motion commanded is `Stop`.
    pub fn new(config: MotorConfig, left: MotorPair, right: MotorPair) -> (control: Self)
        ensures
            control@ == ControlView::initial(config, left@, right@),
    {
        let mut left = left;
        let mut right = right;
        left.stop();
        right.stop();
        ControlLoop { config, state: MotorState::Stop, left, right }
    }

    /// The calibration the loop drives by.
    pub fn config(&self) -> (config: MotorConfig)
        ensures
            config == self@.config,
    {
        self.config
    }

    /// The motion last commanded.
    pub fn state(&self) -> (state: MotorState)
        ensures
            state == self@.state,
    {
        self.state
    }

    /// The duties of the four legs. On neither side do both legs carry one.
    pub fn outputs(&self) -> (frame: DutyFrame)
        ensures
            frame.shows(self@),
            self@.left.exclusive(),
            self@.right.exclusive(),
    {
        let left: (u32, u32) = self.left.duties();
        let right: (u32, u32) = self.right.duties();
        DutyFrame { left_1: left.0, left_2: left.1, right_1: right.0, right_2: right.1 }
    }

    /// Runs one tick. `pending` holds the commands that arrived since the
    /// tick before, oldest first: the newest of them replaces the motion
    /// commanded, the others are dropped, and with none the motion stays.
    /// Both sides are then set for the motion, each by its own percentage
    /// and inversion flag. Returns the duties to write to the hardware.
    pub fn tick(&mut self, pending: &[MotorState]) -> (frame: DutyFrame)
        ensures
            final(self)@ == old(self)@.after_tick(pending@),
            pending@.len() > 0 ==> final(self)@.state == pending@.last(),
            pending@.len() == 0 ==> final(self)@.state == old(self)@.state,
            frame.shows(final(self)@),
            final(self)@.left.exclusive(),
            final(self)@.right.exclusive(),
    {
        let n: usize = pending.len();
        if n > 0 {
            self.state = pending[n - 1];
        }
        let sides: (MotorDirection, MotorDirection) = self.state.directions();
        self.left.drive(sides.0, self.config.left_duty, self.config.left_invert);
        self.right.drive(sides.1, self.config.right_duty, self.config.right_invert);
        self.outputs()
    }
}

/// Of the commands that arrive within one tick only the newest counts.
pub proof fn lemma_newest_command_wins(control: ControlView, older: Seq<MotorState>, newest: MotorState)
    ensures
        control.after_tick(older.push(newest)) == control.after_tick(seq![newest]),
        control.after_tick(older.push(newest)).state == newest,
{
}

/// A tick without a new command leaves the loop as the tick before left it:
/// the motion stays and all four duties are written again unchanged.
pub proof fn lemma_tick_is_steady(control: ControlView, pending: Seq<MotorState>)
    ensures
        control.after_tick(pending).after_tick(Seq::empty()) == control.after_tick(pending),
{
}

/// A command for the motion already in force changes nothing.
pub proof fn lemma_repeated_command_is_noop(control: ControlView)
    ensures
        control.after_tick(seq![control.state]) == control.after_tick(Seq::empty()),
{
}

/// After any tick, on neither side do both legs carry a duty, and the
/// calibration and every leg's resolution are as before.
pub proof fn lemma_tick_keeps_invariants(control: ControlView, pending: Seq<MotorState>)
    ensures
        control.after_tick(pending).left.exclusive(),
        control.after_tick(pending).right.exclusive(),
        control.after_tick(pending).config == control.config,
        control.after_tick(pending).left.side_1.max_duty == control.left.side_1.max_duty,
        control.after_tick(pending).left.side_2.max_duty == control.left.side_2.max_duty,
        control.after_tick(pending).right.side_1.max_duty == control.right.side_1.max_duty,
        control.after_tick(pending).right.side_2.max_duty == control.right.side_2.max_duty,
{
}

/// Right after set-up, before any command, all four legs are at duty 0.
pub proof fn lemma_initial_is_stopped(config: MotorConfig, left: PairView, right: PairView)
    ensures
        ControlView::initial(config, left, right).state == MotorState::Stop,
        ControlView::initial(config, left, right).left.is_stopped(),
        ControlView::initial(config, left, right).right.is_stopped(),
{
}

} // verus!
