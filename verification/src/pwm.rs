//! Software image of a PWM output: the duty it was last programmed with and
//! the largest duty its timer resolution allows.

use vstd::prelude::*;

verus! {

/// What a PWM output is, as numbers.
pub struct PwmView {
    /// Duty the output was last programmed with.
    pub duty: nat,
    /// Largest duty the output accepts.
    pub max_duty: nat,
}

impl PwmView {
    /// The output after it is asked for `duty`: a request beyond `max_duty`
    /// is cut down to `max_duty`, and the resolution never changes.
    pub open spec fn with_duty(self, duty: nat) -> PwmView {
        PwmView { duty: if duty <= self.max_duty { duty } else { self.max_duty }, max_duty: self.max_duty }
    }
}

/// One PWM output. Its duty never exceeds its maximum.
///
/// The value is owned by whoever drives the output and cannot be copied.
#[derive(Debug)]
pub struct PwmChannel {
    duty: u32,
    max_duty: u32,
}

impl View for PwmChannel {
    type V = PwmView;

    closed spec fn view(&self) -> PwmView {
        PwmView { duty: self.duty as nat, max_duty: self.max_duty as nat }
    }
}

impl PwmChannel {
    #[verifier::type_invariant]
    spec fn in_range(self) -> bool {
        self.duty <= self.max_duty
    }

    /// An idle output of the given resolution.
    pub fn new(max_duty: u32) -> (ch: Self)
        ensures
            ch@ == (PwmView { duty: 0, max_duty: max_duty as nat }),
    {
        PwmChannel { duty: 0, max_duty }
    }

    /// The duty the output was last programmed with.
    pub fn get_duty(&self) -> (duty: u32)
        ensures
            duty == self@.duty,
            duty <= self@.max_duty,
    {
        proof {
            use_type_invariant(self);
        }
        self.duty
    }

    /// The largest duty the output accepts.
    pub fn get_max_duty(&self) -> (max_duty: u32)
        ensures
            max_duty == self@.max_duty,
        no_unwind
    {
        self.max_duty
    }

    /// Programs the output, cutting a request beyond the maximum down to
    /// the maximum.
    pub fn set_duty(&mut self, duty: u32)
        ensures
            final(self)@ == old(self)@.with_duty(duty as nat),
        no_unwind
    {
        let clamped: u32 = if duty <= self.max_duty { duty } else { self.max_duty };
        self.duty = clamped;
    }
}

} // verus!
