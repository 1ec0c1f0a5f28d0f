use vstd::prelude::*;
use vstd::string::*;

verus! {

/// Whether a switchable device is powered.
#[derive(Debug, Clone, Copy, PartialEq, Eq, Structural)]
pub enum PowerState {
    Off,
    On,
}

impl PowerState {
    /// The word that stands for this state in a description.
    pub open spec fn label(self) -> Seq<char> {
        match self {
            PowerState::Off => "Off"@,
            PowerState::On => "On"@,
        }
    }

    /// The word that stands for this state in a description.
    pub fn as_str(self) -> (s: &'static str)
        ensures
            s@ == self.label(),
    {
        match self {
            PowerState::Off => "Off",
            PowerState::On => "On",
        }
    }
}

/// The two states have labels of different length, so a label names one state
/// only.
pub proof fn lemma_label_names_one_state(a: PowerState, b: PowerState)
    ensures
        PowerState::Off.label().len() == 3,
        PowerState::On.label().len() == 2,
        a.label() == b.label() ==> a == b,
{
    reveal_strlit("Off");
    reveal_strlit("On");
}

} // verus!
