//! A pin held in software.

use vstd::prelude::*;

verus! {

/// The software image of one digital pin: the level last driven onto an
/// output, or last sampled from an input.
#[derive(Clone, Copy, Debug)]
pub struct Pin {
    state: bool,
}

impl View for Pin {
    type V = bool;

    /// `true` while the pin is high.
    closed spec fn view(&self) -> bool {
        self.state
    }
}

impl Pin {
    /// A pin at the given level (`true` is high).
    pub fn new(state: bool) -> (pin: Pin)
        ensures
            pin@ == state,
    {
        Pin { state }
    }

    pub fn is_high(&self) -> (high: bool)
        ensures
            high == self@,
    {
        self.state
    }

    pub fn is_low(&self) -> (low: bool)
        ensures
            low == !self@,
    {
        !self.state
    }

    pub fn set_high(&mut self)
        ensures
            final(self)@,
    {
        self.state = true;
    }

    pub fn set_low(&mut self)
        ensures
            !final(self)@,
    {
        self.state = false;
    }

    /// Drives the pin high or low, as `high` says.
    pub fn set_state(&mut self, high: bool)
        ensures
            final(self)@ == high,
    {
        if high {
            self.set_high();
        } else {
            self.set_low();
        }
    }
}

} // verus!
