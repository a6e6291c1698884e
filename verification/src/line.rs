//! The binary output line that the device drives.

use vstd::prelude::*;

verus! {

/// Level of the output line. There is no state in between.
#[derive(Clone, Copy, Debug, PartialEq, Eq, Structural)]
pub enum LineState {
    Deasserted,
    Asserted,
}

/// Handle of the output line. It records the level that was last commanded;
/// whoever owns the pin drives it to that level.
#[derive(Debug, PartialEq, Eq)]
pub struct Led {
    state: LineState,
}

impl View for Led {
    type V = LineState;

    closed spec fn view(&self) -> LineState {
        self.state
    }
}

impl Led {
    /// A handle for a line that currently is at `state`.
    pub fn new(state: LineState) -> (led: Led)
        ensures
            led@ == state,
    {
        Led { state }
    }

    /// Asserts the line.
    pub fn set_high(&mut self)
        ensures
            final(self)@ == LineState::Asserted,
    {
        self.state = LineState::Asserted;
    }

    /// Deasserts the line.
    pub fn set_low(&mut self)
        ensures
            final(self)@ == LineState::Deasserted,
    {
        self.state = LineState::Deasserted;
    }

    /// The level that the line was last set to.
    pub fn state(&self) -> (state: LineState)
        ensures
            state == self@,
    {
        self.state
    }

    /// Whether the line is asserted.
    pub fn is_set_high(&self) -> (high: bool)
        ensures
            high == (self@ == LineState::Asserted),
    {
        match self.state {
            LineState::Asserted => true,
            LineState::Deasserted => false,
        }
    }
}

} // verus!
