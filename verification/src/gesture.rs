//! The gestures of a frame and their order of precedence.

use vstd::prelude::*;

verus! {

/// A key that a gesture listens to.
#[derive(Clone, Copy, Debug, PartialEq, Eq, Structural)]
pub enum Key {
    Escape,
    /// The backtick key.
    Grave,
    H,
}

/// A single input condition.
#[derive(Clone, Copy, Debug, PartialEq, Eq, Structural)]
pub enum Trigger {
    /// The platform asks the program to quit.
    QuitSignal,
    /// The key has been pressed.
    KeyPress(Key),
}

/// A gesture that the frame loop acts on. A gesture registers when any one of
/// its triggers does.
#[derive(Clone, Copy, Debug, PartialEq, Eq, Structural)]
pub enum Gesture {
    /// Ends the loop once the frame is complete.
    Quit,
    /// Flips the mouse grab.
    ToggleGrab,
    /// Advances the help overlay.
    ToggleHelp,
}

/// What the three gestures would answer in one frame, were each of them
/// polled.
#[derive(Clone, Copy, Debug, PartialEq, Eq, Structural)]
pub struct Snapshot {
    pub quit: bool,
    pub toggle_grab: bool,
    pub toggle_help: bool,
}

impl Gesture {
    /// The gestures in the order in which they are polled.
    pub open spec fn precedence() -> Seq<Gesture> {
        seq![Gesture::Quit, Gesture::ToggleGrab, Gesture::ToggleHelp]
    }

    /// The place of the gesture in the order of precedence.
    pub open spec fn rank(self) -> int {
        match self {
            Gesture::Quit => 0,
            Gesture::ToggleGrab => 1,
            Gesture::ToggleHelp => 2,
        }
    }

    /// The gesture that is polled when this one has not registered.
    pub open spec fn successor(self) -> Option<Gesture> {
        if self.rank() + 1 < Gesture::precedence().len() {
            Some(Gesture::precedence()[self.rank() + 1])
        } else {
            None
        }
    }

    /// The triggers of the gesture.
    pub open spec fn triggers(self) -> Seq<Trigger> {
        match self {
            Gesture::Quit => seq![Trigger::QuitSignal, Trigger::KeyPress(Key::Escape)],
            Gesture::ToggleGrab => seq![Trigger::KeyPress(Key::Grave)],
            Gesture::ToggleHelp => seq![Trigger::KeyPress(Key::H)],
        }
    }

    /// The gesture that is polled first.
    pub fn first() -> (gesture: Gesture)
        ensures
            gesture == Gesture::precedence()[0],
    {
        Gesture::Quit
    }

    /// The gesture that is polled when this one has not registered, if any is
    /// left.
    pub fn next(self) -> (gesture: Option<Gesture>)
        ensures
            gesture == self.successor(),
    {
        match self {
            Gesture::Quit => Some(Gesture::ToggleGrab),
            Gesture::ToggleGrab => Some(Gesture::ToggleHelp),
            Gesture::ToggleHelp => None,
        }
    }

    /// The triggers of the gesture, any one of which makes it register.
    pub fn trigger_list(self) -> (triggers: Vec<Trigger>)
        ensures
            triggers@ == self.triggers(),
    {
        let mut triggers: Vec<Trigger> = Vec::new();
        match self {
            Gesture::Quit => {
                triggers.push(Trigger::QuitSignal);
                triggers.push(Trigger::KeyPress(Key::Escape));
            },
            Gesture::ToggleGrab => {
                triggers.push(Trigger::KeyPress(Key::Grave));
            },
            Gesture::ToggleHelp => {
                triggers.push(Trigger::KeyPress(Key::H));
            },
        }
        assert(triggers@ =~= self.triggers());
        triggers
    }
}

impl Snapshot {
    /// Whether the gesture registers in this frame.
    pub open spec fn registers(self, gesture: Gesture) -> bool {
        match gesture {
            Gesture::Quit => self.quit,
            Gesture::ToggleGrab => self.toggle_grab,
            Gesture::ToggleHelp => self.toggle_help,
        }
    }

    /// The one gesture that takes effect in this frame: the first in the
    /// order of precedence that registers.
    pub open spec fn winner(self) -> Option<Gesture> {
        if self.quit {
            Some(Gesture::Quit)
        } else if self.toggle_grab {
            Some(Gesture::ToggleGrab)
        } else if self.toggle_help {
            Some(Gesture::ToggleHelp)
        } else {
            None
        }
    }

    /// The gestures that are polled in this frame: those up to the winner.
    pub open spec fn polled(self) -> Seq<Gesture> {
        match self.winner() {
            Some(winner) => Gesture::precedence().subrange(0, winner.rank() + 1),
            None => Gesture::precedence(),
        }
    }

    /// Whether the gesture registers in this frame.
    pub fn answer(&self, gesture: Gesture) -> (registers: bool)
        ensures
            registers == self.registers(gesture),
    {
        match gesture {
            Gesture::Quit => self.quit,
            Gesture::ToggleGrab => self.toggle_grab,
            Gesture::ToggleHelp => self.toggle_help,
        }
    }

    /// The one gesture that takes effect in this frame, if any does.
    pub fn dispatch(&self) -> (winner: Option<Gesture>)
        ensures
            winner == self.winner(),
    {
        if self.quit {
            Some(Gesture::Quit)
        } else if self.toggle_grab {
            Some(Gesture::ToggleGrab)
        } else if self.toggle_help {
            Some(Gesture::ToggleHelp)
        } else {
            None
        }
    }
}

/// The winner of a frame registers, and no gesture that precedes it does.
/// Where no gesture registers there is no winner.
pub proof fn law_first_match_wins(snapshot: Snapshot)
    ensures
        snapshot.winner() matches Some(winner) ==> {
            &&& snapshot.registers(winner)
            &&& forall|g: Gesture| g.rank() < winner.rank() ==> !snapshot.registers(g)
        },
        snapshot.winner() is None ==> forall|g: Gesture| !snapshot.registers(g),
        snapshot.quit ==> snapshot.winner() == Some(Gesture::Quit),
{
}

} // verus!
