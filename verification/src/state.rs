//! Charging state of a battery.

use vstd::prelude::*;

verus! {

/// What the battery is doing at the moment of the reading.
#[derive(Clone, Copy, Debug, PartialEq, Eq, Structural)]
pub enum State {
    Unknown,
    Charging,
    Discharging,
    Empty,
    Full,
}

impl State {
    /// The variant's name, as it appears in a diagnostic dump.
    pub open spec fn name_spec(self) -> Seq<char> {
        match self {
            State::Unknown => "Unknown"@,
            State::Charging => "Charging"@,
            State::Discharging => "Discharging"@,
            State::Empty => "Empty"@,
            State::Full => "Full"@,
        }
    }

    /// The variant's name, as it appears in a diagnostic dump.
    pub fn name(self) -> (text: &'static str)
        ensures
            text@ == self.name_spec(),
    {
        match self {
            State::Unknown => "Unknown",
            State::Charging => "Charging",
            State::Discharging => "Discharging",
            State::Empty => "Empty",
            State::Full => "Full",
        }
    }
}

} // verus!
