//! The display-mode state machine: three modes in a fixed cycle.

use vstd::prelude::*;

verus! {

/// Which measured quantity the display is currently showing.
///
/// The three modes form a cycle: `Temp` -> `Humidity` -> `Pressure` ->
/// `Temp`. A value of this type is created once at startup (showing the
/// temperature), advanced only by the input debouncer, and copied freely.
#[derive(Copy, Clone, PartialEq, Eq, Structural, Debug)]
pub enum DisplayState {
    Temp,
    Humidity,
    Pressure,
}

impl DisplayState {
    /// The successor of a mode in the display cycle.
    pub open spec fn spec_next(self) -> DisplayState {
        match self {
            DisplayState::Temp => DisplayState::Humidity,
            DisplayState::Humidity => DisplayState::Pressure,
            DisplayState::Pressure => DisplayState::Temp,
        }
    }

    /// Advance to the next mode of the cycle. Total and pure: every mode has
    /// a successor and there is no error condition.
    pub fn next_state(&self) -> (r: DisplayState)
        ensures
            r == self.spec_next(),
    {
        match self {
            DisplayState::Temp => DisplayState::Humidity,
            DisplayState::Humidity => DisplayState::Pressure,
            DisplayState::Pressure => DisplayState::Temp,
        }
    }
}

impl Default for DisplayState {
    /// The display starts out showing the temperature.
    fn default() -> (r: DisplayState)
        ensures
            r == DisplayState::Temp,
    {
        DisplayState::Temp
    }
}

/// Law: the mode cycle has period exactly three. Applying `next` three times
/// returns to the starting mode, and a single application never stays put.
pub proof fn lemma_mode_cycle(s: DisplayState)
    ensures
        s.spec_next().spec_next().spec_next() == s,
        s.spec_next() != s,
{
}

} // verus!
