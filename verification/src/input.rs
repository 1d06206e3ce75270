//! Button signals as the controller reads them.

use vstd::prelude::*;

verus! {

/// Whether each button is held down at one tick (a level signal).
#[derive(Clone, Copy, Debug, PartialEq, Eq, Structural)]
pub struct ButtonLevels {
    pub primary: bool,
    pub secondary: bool,
}

/// Whether each button went from released to pressed at one tick (an edge
/// signal). This is all the controller reads of the input device.
#[derive(Clone, Copy, Debug, PartialEq, Eq, Structural)]
pub struct ButtonEvents {
    pub primary: bool,
    pub secondary: bool,
}

/// A signal rises at a tick when it is on at that tick and was off at the one
/// before.
pub open spec fn rising_edge(before: bool, now: bool) -> bool {
    now && !before
}

impl ButtonEvents {
    /// The events that two consecutive level readings give.
    pub open spec fn edges(before: ButtonLevels, now: ButtonLevels) -> ButtonEvents {
        ButtonEvents {
            primary: rising_edge(before.primary, now.primary),
            secondary: rising_edge(before.secondary, now.secondary),
        }
    }

    /// Turns the levels of the previous tick and of this one into this tick's
    /// events, for a host whose device gives levels only.
    pub fn from_levels(before: ButtonLevels, now: ButtonLevels) -> (events: ButtonEvents)
        ensures
            events == Self::edges(before, now),
    {
        ButtonEvents {
            primary: now.primary && !before.primary,
            secondary: now.secondary && !before.secondary,
        }
    }
}

} // verus!
