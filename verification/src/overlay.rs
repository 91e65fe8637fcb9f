//! The help overlay: which of the two help texts is on screen.

use vstd::prelude::*;

verus! {

/// One of the two help texts that are registered with the text renderer.
#[derive(Clone, Copy, Debug, PartialEq, Eq, Structural)]
pub enum Overlay {
    ShortHelp,
    LongHelp,
}

/// What the help overlay shows.
#[derive(Clone, Copy, Debug, PartialEq, Eq, Structural)]
pub enum HelpState {
    /// The short hint is visible, the long text hidden. Only the initial state.
    Short,
    /// The long text is visible, the short hint hidden.
    Long,
    /// Both texts are hidden.
    Hidden,
}

/// One change of visibility that a toggle asks of the text renderer.
#[derive(Clone, Copy, Debug, PartialEq, Eq, Structural)]
pub struct VisibilityChange {
    pub overlay: Overlay,
    pub visible: bool,
}

/// Which of the two texts the text renderer shows.
#[derive(Clone, Copy, Debug, PartialEq, Eq, Structural)]
pub struct Visibility {
    pub short_help: bool,
    pub long_help: bool,
}

/// The short help: the hint that is on screen when the game starts.
pub const SHORT_HELP: &'static str = "Press 'h' for help.";

/// The long help: the list of keys.
pub const LONG_HELP: &'static str =
    "Use WASD or arrow keys to move and the mouse to aim.\nOther keys:\n    ESC - to quit\n    SPACEBAR - jump\n    ` - to toggle mouse grab (backtick)\n    f - to toggle fly mode\n    c - to toggle clipping (wall collisions)\n    h - toggle this help message";

impl Overlay {
    /// The text of the overlay.
    pub open spec fn spec_text(self) -> Seq<char> {
        match self {
            Overlay::ShortHelp => SHORT_HELP@,
            Overlay::LongHelp => LONG_HELP@,
        }
    }

    /// The text of the overlay, as it is registered with the text renderer.
    pub fn text(self) -> (text: &'static str)
        ensures
            text@ == self.spec_text(),
    {
        match self {
            Overlay::ShortHelp => SHORT_HELP,
            Overlay::LongHelp => LONG_HELP,
        }
    }
}

impl HelpState {
    /// The counter that stands for the state: 0 for `Short`, 1 for `Long`, 2
    /// for `Hidden`.
    pub open spec fn counter(self) -> nat {
        match self {
            HelpState::Short => 0,
            HelpState::Long => 1,
            HelpState::Hidden => 2,
        }
    }

    /// The state that a counter stands for. A counter above 2 stands for none.
    pub open spec fn of_counter(c: nat) -> Option<HelpState> {
        if c == 0 {
            Some(HelpState::Short)
        } else if c == 1 {
            Some(HelpState::Long)
        } else if c == 2 {
            Some(HelpState::Hidden)
        } else {
            None
        }
    }

    /// The state after one toggle: the counter `c` becomes `c % 2 + 1`.
    pub open spec fn toggled(self) -> HelpState {
        match self {
            HelpState::Short => HelpState::Long,
            HelpState::Long => HelpState::Hidden,
            HelpState::Hidden => HelpState::Long,
        }
    }

    /// The state after `n` toggles.
    pub open spec fn after_toggles(self, n: nat) -> HelpState
        decreases n,
    {
        if n == 0 {
            self
        } else {
            self.after_toggles((n - 1) as nat).toggled()
        }
    }

    /// What a text renderer shows that has followed the overlay into this
    /// state.
    pub open spec fn visibility(self) -> Visibility {
        Visibility { short_help: self == HelpState::Short, long_help: self == HelpState::Long }
    }

    /// The changes of visibility that are due on entering this state, in the
    /// order in which they are made. No toggle leads to `Short`; were it
    /// entered, the short help would come up.
    pub open spec fn entry_changes(self) -> Seq<VisibilityChange> {
        match self {
            HelpState::Short => seq![
                VisibilityChange { overlay: Overlay::ShortHelp, visible: true },
            ],
            HelpState::Long => seq![
                VisibilityChange { overlay: Overlay::ShortHelp, visible: false },
                VisibilityChange { overlay: Overlay::LongHelp, visible: true },
            ],
            HelpState::Hidden => seq![
                VisibilityChange { overlay: Overlay::LongHelp, visible: false },
            ],
        }
    }

    /// The state in which the overlay starts.
    pub fn initial() -> (state: HelpState)
        ensures
            state == HelpState::Short,
    {
        HelpState::Short
    }

    /// The counter that stands for the state.
    pub fn counter_value(self) -> (c: u8)
        ensures
            c == self.counter(),
    {
        match self {
            HelpState::Short => 0,
            HelpState::Long => 1,
            HelpState::Hidden => 2,
        }
    }

    /// Advances the overlay by one help gesture.
    pub fn toggle(self) -> (next: HelpState)
        ensures
            next == self.toggled(),
            next.counter() == self.counter() % 2 + 1,
    {
        match self {
            HelpState::Short => HelpState::Long,
            HelpState::Long => HelpState::Hidden,
            HelpState::Hidden => HelpState::Long,
        }
    }
}

impl Visibility {
    /// What the text renderer shows once both texts are registered and the
    /// long one is hidden.
    pub open spec fn initial() -> Visibility {
        Visibility { short_help: true, long_help: false }
    }

    /// The visibility after one change.
    pub open spec fn changed(self, change: VisibilityChange) -> Visibility {
        match change.overlay {
            Overlay::ShortHelp => Visibility { short_help: change.visible, ..self },
            Overlay::LongHelp => Visibility { long_help: change.visible, ..self },
        }
    }

    /// The visibility after a list of changes, made from the first to the last.
    pub open spec fn changed_by(self, changes: Seq<VisibilityChange>) -> Visibility
        decreases changes.len(),
    {
        if changes.len() == 0 {
            self
        } else {
            self.changed_by(changes.drop_last()).changed(changes.last())
        }
    }

    /// The visibility after `n` toggles of an overlay that starts in `state`,
    /// each followed by the changes that are due on entering the new state.
    pub open spec fn after_toggles(self, state: HelpState, n: nat) -> Visibility
        decreases n,
    {
        if n == 0 {
            self
        } else {
            self.after_toggles(state, (n - 1) as nat).changed_by(
                state.after_toggles(n).entry_changes(),
            )
        }
    }

    /// Records one change of visibility.
    pub fn apply(self, change: VisibilityChange) -> (next: Visibility)
        ensures
            next == self.changed(change),
    {
        match change.overlay {
            Overlay::ShortHelp => Visibility { short_help: change.visible, long_help: self.long_help },
            Overlay::LongHelp => Visibility { short_help: self.short_help, long_help: change.visible },
        }
    }
}

/// A toggle takes the counter `c` of the overlay to `c % 2 + 1`, which is the
/// counter of a state again.
pub proof fn law_toggle_formula(state: HelpState)
    ensures
        HelpState::of_counter(state.counter() % 2 + 1) == Some(state.toggled()),
        HelpState::of_counter(state.counter()) == Some(state),
        state.toggled().counter() == state.counter() % 2 + 1,
{
}

/// The changes made on entering a state leave the text renderer showing what
/// the state stands for, provided it showed what the state before stood for.
pub proof fn lemma_entry_changes_reach_state(state: HelpState)
    ensures
        state.visibility().changed_by(state.toggled().entry_changes())
            == state.toggled().visibility(),
{
    let changes = state.toggled().entry_changes();
    let start = state.visibility();
    reveal_with_fuel(Visibility::changed_by, 3);
    match state.toggled() {
        HelpState::Short => {},
        HelpState::Long => {
            assert(changes.drop_last() == seq![changes[0]]);
            assert(changes.drop_last().drop_last() == Seq::<VisibilityChange>::empty());
        },
        HelpState::Hidden => {
            assert(changes.drop_last() == Seq::<VisibilityChange>::empty());
        },
    }
}

/// The transition table of the help overlay. From `Short`, an odd number of
/// toggles leads to `Long` and an even number, two or more, to `Hidden`;
/// `Short` is never entered again. The text renderer shows the long text in
/// `Long` and nothing in `Hidden`.
pub proof fn law_toggle_table(n: nat)
    requires
        n >= 1,
    ensures
        HelpState::Short.after_toggles(n) == if n % 2 == 1 {
            HelpState::Long
        } else {
            HelpState::Hidden
        },
        HelpState::Short.after_toggles(n) != HelpState::Short,
        Visibility::initial().after_toggles(HelpState::Short, n)
            == HelpState::Short.after_toggles(n).visibility(),
        !Visibility::initial().after_toggles(HelpState::Short, n).short_help,
        Visibility::initial().after_toggles(HelpState::Short, n).long_help == (n % 2 == 1),
    decreases n,
{
    if n == 1 {
        reveal_with_fuel(HelpState::after_toggles, 2);
        reveal_with_fuel(Visibility::after_toggles, 2);
        assert(Visibility::initial() == HelpState::Short.visibility());
        lemma_entry_changes_reach_state(HelpState::Short);
    } else {
        law_toggle_table((n - 1) as nat);
        lemma_entry_changes_reach_state(HelpState::Short.after_toggles((n - 1) as nat));
    }
}

} // verus!
