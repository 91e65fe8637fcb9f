//! One frame as a whole.
//!
//! A frame has three parts. It opens: the frame is acquired, its delta is
//! measured and the input is polled. It dispatches: the gestures are polled in
//! their order of precedence and the first that registers takes effect. It
//! closes: player, camera and level are advanced, scene and help texts are
//! drawn, the telemetry is brought up to date and the frame is presented.
//! Each part is stated here in one piece, and proved to be what the game does
//! event by event when nothing fails.

use vstd::prelude::*;
use crate::driver::World;
use crate::gesture::Gesture;
use crate::machine::{GameState, Phase};
use crate::overlay::{
    lemma_entry_changes_reach_state, HelpState, Overlay, Visibility, VisibilityChange,
};
use crate::protocol::{Action, Event, Moment};
use crate::telemetry::{Delta, FrameSample, NOMINAL_FRAME_TICKS, TICKS_PER_NANO};

verus! {

/// In how many of a run of frames the gesture wins.
pub open spec fn wins(worlds: Seq<World>, gesture: Gesture) -> nat
    decreases worlds.len(),
{
    if worlds.len() == 0 {
        0
    } else {
        wins(worlds.drop_last(), gesture) + if worlds.last().snapshot.winner() == Some(gesture) {
            1nat
        } else {
            0nat
        }
    }
}

/// The frames of a run as the telemetry sees them: each with the ticks since
/// the start of the frame before, the first since `last_frame`, and with the
/// readings that enclose its update phase.
pub open spec fn samples(last_frame: u64, worlds: Seq<World>) -> Seq<FrameSample>
    decreases worlds.len(),
{
    if worlds.len() == 0 {
        Seq::empty()
    } else {
        let earlier = worlds.drop_last();
        let world = worlds.last();
        let since = if earlier.len() == 0 {
            last_frame
        } else {
            earlier.last().frame_start
        };
        samples(last_frame, earlier).push(
            FrameSample {
                ticks: Delta::of(Delta::elapsed(since, world.frame_start)).ticks(),
                started: world.update_start,
                ended: world.update_end,
            },
        )
    }
}

/// The polls of a run of gestures.
pub open spec fn poll_actions(gestures: Seq<Gesture>) -> Seq<Action> {
    Seq::new(gestures.len(), |i: int| Action::PollGesture { gesture: gestures[i] })
}

/// The actions that make a run of changes of visibility.
pub open spec fn change_actions(changes: Seq<VisibilityChange>) -> Seq<Action> {
    Seq::new(
        changes.len(),
        |i: int| Action::SetOverlayVisible { overlay: changes[i].overlay, visible: changes[i].visible },
    )
}

impl Phase {
    /// The place of a phase in the second half of a frame, from the update of
    /// the player to the reading of the clock after the drawing. `None` for a
    /// phase that is no part of it.
    pub open spec fn update_step(self) -> Option<nat> {
        match self {
            Phase::UpdatePlayer => Some(0),
            Phase::SetModelview => Some(1),
            Phase::SetProjection => Some(2),
            Phase::UpdateLevel => Some(3),
            Phase::RenderScene => Some(4),
            Phase::RenderText => Some(5),
            Phase::UpdateEndClock => Some(6),
            _ => None,
        }
    }
}

impl GameState {
    /// From the update of the player to the drawing of the help texts no step
    /// is skipped and none comes out of turn, whatever is reported to the
    /// game: the scene is drawn only after the player has been advanced, the
    /// camera handed to the scene and the level advanced, in this order, and
    /// the help texts only after the scene. Nothing but the phase changes on
    /// the way.
    pub proof fn law_update_in_order(self, event: Event)
        requires
            self.phase.update_step() is Some,
            self.phase != Phase::UpdateEndClock,
        ensures
            ({
                let step = self.phase.update_step()->0;
                let next = self.after(event).phase;
                &&& next == self.phase || next.update_step() == Some(step + 1) || next is Failed
                &&& next.update_step() == Some(step + 1) <==> event is Done
                &&& next is Failed <==> event is Failed && (self.phase == Phase::RenderScene
                    || self.phase == Phase::RenderText)
                &&& self.after(event) == self.at(next)
            }),
    {
    }

    /// The game once a frame has opened. The frame's delta is the time since
    /// the frame before, or the nominal frame where the clock has not
    /// advanced; the reading is kept for the next frame either way.
    pub open spec fn opened(self, world: World) -> GameState {
        GameState {
            delta: Delta::of(Delta::elapsed(self.last_frame, world.frame_start)),
            last_frame: world.frame_start,
            update_start: world.update_start,
            phase: Phase::PollGesture(Gesture::Quit),
            ..self
        }
    }

    /// What the driver does to open a frame.
    pub open spec fn opening_actions() -> Seq<Action> {
        seq![
            Action::AcquireFrame,
            Action::ReadClock { moment: Moment::FrameStart },
            Action::ReadClock { moment: Moment::UpdateStart },
            Action::PollInput,
        ]
    }

    /// The game once the gestures of a frame are dispatched: the winner of
    /// the frame has taken effect, and no other gesture has.
    pub open spec fn dispatched(self, world: World) -> GameState {
        match world.snapshot.winner() {
            Some(Gesture::Quit) => GameState { running: false, phase: Phase::UpdatePlayer, ..self },
            Some(Gesture::ToggleGrab) => GameState {
                mouse_grabbed: !self.mouse_grabbed,
                phase: Phase::UpdatePlayer,
                ..self
            },
            Some(Gesture::ToggleHelp) => GameState {
                help: self.help.toggled(),
                visibility: self.visibility.changed_by(self.help.toggled().entry_changes()),
                phase: Phase::UpdatePlayer,
                ..self
            },
            None => self.at(Phase::UpdatePlayer),
        }
    }

    /// What the winner of a frame has the driver do.
    pub open spec fn effect_actions(self, world: World) -> Seq<Action> {
        match world.snapshot.winner() {
            Some(Gesture::ToggleGrab) => seq![
                Action::SetMouseEnabled { enabled: !self.mouse_grabbed },
                Action::SetCursorGrabbed { grabbed: !self.mouse_grabbed },
            ],
            Some(Gesture::ToggleHelp) => change_actions(self.help.toggled().entry_changes()),
            _ => Seq::empty(),
        }
    }

    /// What the driver does while the gestures of a frame are dispatched: it
    /// polls the gestures up to the winner, and does what the winner asks.
    pub open spec fn dispatch_actions(self, world: World) -> Seq<Action> {
        poll_actions(world.snapshot.polled()) + self.effect_actions(world)
    }

    /// The game once a frame has closed: the frame is added to the telemetry,
    /// and the next frame follows unless a quit gesture has registered.
    pub open spec fn closed(self, world: World) -> GameState {
        GameState {
            telemetry: self.telemetry.after(
                self.delta.ticks(),
                self.update_start,
                world.update_end,
            ),
            phase: if self.running {
                Phase::AcquireFrame
            } else {
                Phase::Finished
            },
            ..self
        }
    }

    /// What the driver does to close a frame. The camera is handed to the
    /// scene before the scene is drawn, the help texts are drawn on top of
    /// the scene, and a report that falls due is emitted before the frame is
    /// presented.
    pub open spec fn closing_actions(self, world: World) -> Seq<Action> {
        self.update_actions() + self.present_actions(world)
    }

    /// The game after one frame.
    pub open spec fn framed(self, world: World) -> GameState {
        self.opened(world).dispatched(world).closed(world)
    }

    /// What the driver does in one frame.
    pub open spec fn frame_actions(self, world: World) -> Seq<Action> {
        GameState::opening_actions() + self.opened(world).dispatch_actions(world)
            + self.opened(world).dispatched(world).closing_actions(world)
    }

    /// A frame opens in four steps.
    pub proof fn law_opening(self, world: World)
        requires
            self.phase == Phase::AcquireFrame,
        ensures
            self.driven(world, 4) == self.opened(world),
            self.actions(world, 4) == GameState::opening_actions(),
    {
        reveal_with_fuel(GameState::driven, 5);
        reveal_with_fuel(GameState::actions, 5);
        assert(self.actions(world, 4) =~= GameState::opening_actions());
    }

    /// The dispatch of a frame in which the quit gesture registers.
    proof fn lemma_dispatch_quit(self, world: World)
        requires
            self.phase == Phase::PollGesture(Gesture::Quit),
            world.snapshot.quit,
        ensures
            self.dispatch_actions(world).len() == 1,
            self.driven(world, 1) == self.dispatched(world),
            self.actions(world, 1) == self.dispatch_actions(world),
    {
        let expected = self.dispatch_actions(world);
        let done = self.dispatched(world);
        assert(done.actions(world, 0) =~= Seq::<Action>::empty());
        assert(expected =~= seq![Action::PollGesture { gesture: Gesture::Quit }]);
        self.lemma_step(world, 1, done);
        assert(self.actions(world, 1) =~= expected);
    }

    /// The dispatch of a frame that the grab gesture wins.
    proof fn lemma_dispatch_grab(self, world: World)
        requires
            self.phase == Phase::PollGesture(Gesture::Quit),
            !world.snapshot.quit,
            world.snapshot.toggle_grab,
        ensures
            self.dispatch_actions(world).len() == 4,
            self.driven(world, 4) == self.dispatched(world),
            self.actions(world, 4) == self.dispatch_actions(world),
    {
        let expected = self.dispatch_actions(world);
        let done = self.dispatched(world);
        let grabbed = !self.mouse_grabbed;
        assert(done.actions(world, 0) =~= Seq::<Action>::empty());
        assert(expected =~= seq![
            Action::PollGesture { gesture: Gesture::Quit },
            Action::PollGesture { gesture: Gesture::ToggleGrab },
            Action::SetMouseEnabled { enabled: grabbed },
            Action::SetCursorGrabbed { grabbed },
        ]);
        let s1 = self.at(Phase::PollGesture(Gesture::ToggleGrab));
        let s2 = GameState { mouse_grabbed: grabbed, phase: Phase::EnableMouse, ..self };
        let s3 = s2.at(Phase::GrabCursor);
        self.lemma_step(world, 4, s1);
        s1.lemma_step(world, 3, s2);
        s2.lemma_step(world, 2, s3);
        s3.lemma_step(world, 1, done);
        assert(self.actions(world, 4) =~= expected);
    }

    /// The dispatch of a frame that the help gesture wins, with the long help
    /// coming up.
    proof fn lemma_dispatch_help_long(self, world: World)
        requires
            self.phase == Phase::PollGesture(Gesture::Quit),
            world.snapshot.winner() == Some(Gesture::ToggleHelp),
            self.help.toggled() == HelpState::Long,
        ensures
            self.dispatch_actions(world).len() == 5,
            self.driven(world, 5) == self.dispatched(world),
            self.actions(world, 5) == self.dispatch_actions(world),
    {
        let expected = self.dispatch_actions(world);
        let done = self.dispatched(world);
        let help = self.help.toggled();
        let changes = help.entry_changes();
        let s1 = self.at(Phase::PollGesture(Gesture::ToggleGrab));
        let s2 = self.at(Phase::PollGesture(Gesture::ToggleHelp));
        let s3 = GameState { help, phase: Phase::HideShortHelp, ..self };
        let s4 = GameState {
            visibility: self.visibility.changed(changes[0]),
            phase: Phase::ShowLongHelp,
            ..s3
        };
        assert(done.actions(world, 0) =~= Seq::<Action>::empty());
        assert(done.visibility == self.visibility.changed(changes[0]).changed(changes[1])) by {
            reveal_with_fuel(Visibility::changed_by, 3);
            assert(changes.drop_last() =~= seq![changes[0]]);
            assert(changes.drop_last().drop_last() =~= Seq::<VisibilityChange>::empty());
        }
        assert(expected =~= seq![
            Action::PollGesture { gesture: Gesture::Quit },
            Action::PollGesture { gesture: Gesture::ToggleGrab },
            Action::PollGesture { gesture: Gesture::ToggleHelp },
            Action::SetOverlayVisible { overlay: Overlay::ShortHelp, visible: false },
            Action::SetOverlayVisible { overlay: Overlay::LongHelp, visible: true },
        ]);
        self.lemma_step(world, 5, s1);
        s1.lemma_step(world, 4, s2);
        s2.lemma_step(world, 3, s3);
        s3.lemma_step(world, 2, s4);
        s4.lemma_step(world, 1, done);
        assert(self.actions(world, 5) =~= expected);
    }

    /// The dispatch of a frame that the help gesture wins, with the long help
    /// going away.
    proof fn lemma_dispatch_help_hidden(self, world: World)
        requires
            self.phase == Phase::PollGesture(Gesture::Quit),
            world.snapshot.winner() == Some(Gesture::ToggleHelp),
            self.help.toggled() == HelpState::Hidden,
        ensures
            self.dispatch_actions(world).len() == 4,
            self.driven(world, 4) == self.dispatched(world),
            self.actions(world, 4) == self.dispatch_actions(world),
    {
        let expected = self.dispatch_actions(world);
        let done = self.dispatched(world);
        let help = self.help.toggled();
        let changes = help.entry_changes();
        let s1 = self.at(Phase::PollGesture(Gesture::ToggleGrab));
        let s2 = self.at(Phase::PollGesture(Gesture::ToggleHelp));
        let s3 = GameState { help, phase: Phase::HideLongHelp, ..self };
        assert(done.actions(world, 0) =~= Seq::<Action>::empty());
        assert(done.visibility == self.visibility.changed(changes[0])) by {
            reveal_with_fuel(Visibility::changed_by, 2);
            assert(changes.drop_last() =~= Seq::<VisibilityChange>::empty());
        }
        assert(expected =~= seq![
            Action::PollGesture { gesture: Gesture::Quit },
            Action::PollGesture { gesture: Gesture::ToggleGrab },
            Action::PollGesture { gesture: Gesture::ToggleHelp },
            Action::SetOverlayVisible { overlay: Overlay::LongHelp, visible: false },
        ]);
        self.lemma_step(world, 4, s1);
        s1.lemma_step(world, 3, s2);
        s2.lemma_step(world, 2, s3);
        s3.lemma_step(world, 1, done);
        assert(self.actions(world, 4) =~= expected);
    }

    /// The dispatch of a frame in which no gesture registers.
    proof fn lemma_dispatch_none(self, world: World)
        requires
            self.phase == Phase::PollGesture(Gesture::Quit),
            world.snapshot.winner() is None,
        ensures
            self.dispatch_actions(world).len() == 3,
            self.driven(world, 3) == self.dispatched(world),
            self.actions(world, 3) == self.dispatch_actions(world),
    {
        let expected = self.dispatch_actions(world);
        let done = self.dispatched(world);
        assert(done.actions(world, 0) =~= Seq::<Action>::empty());
        assert(expected =~= seq![
            Action::PollGesture { gesture: Gesture::Quit },
            Action::PollGesture { gesture: Gesture::ToggleGrab },
            Action::PollGesture { gesture: Gesture::ToggleHelp },
        ]);
        let s1 = self.at(Phase::PollGesture(Gesture::ToggleGrab));
        let s2 = self.at(Phase::PollGesture(Gesture::ToggleHelp));
        self.lemma_step(world, 3, s1);
        s1.lemma_step(world, 2, s2);
        s2.lemma_step(world, 1, done);
        assert(self.actions(world, 3) =~= expected);
    }

    /// The gestures are polled in their order of precedence until one
    /// registers; that one takes effect, and the game goes on to advance the
    /// player.
    pub proof fn law_dispatch(self, world: World)
        requires
            self.phase == Phase::PollGesture(Gesture::Quit),
        ensures
            self.driven(world, self.dispatch_actions(world).len()) == self.dispatched(world),
            self.actions(world, self.dispatch_actions(world).len()) == self.dispatch_actions(
                world,
            ),
    {
        if world.snapshot.quit {
            self.lemma_dispatch_quit(world);
        } else if world.snapshot.toggle_grab {
            self.lemma_dispatch_grab(world);
        } else if world.snapshot.toggle_help {
            if self.help.toggled() == HelpState::Long {
                self.lemma_dispatch_help_long(world);
            } else {
                self.lemma_dispatch_help_hidden(world);
            }
        } else {
            self.lemma_dispatch_none(world);
        }
    }

    /// The actions from the update of the player to the drawing of the help
    /// texts.
    pub open spec fn update_actions(self) -> Seq<Action> {
        seq![
            Action::UpdatePlayer { delta: self.delta },
            Action::SetModelview,
            Action::SetProjection,
            Action::UpdateLevel { delta: self.delta },
            Action::RenderScene { delta: self.delta },
            Action::RenderText,
        ]
    }

    /// The actions from the end of the update phase to the end of the frame.
    pub open spec fn present_actions(self, world: World) -> Seq<Action> {
        seq![Action::ReadClock { moment: Moment::UpdateEnd }] + match self.telemetry.report(
            self.delta.ticks(),
            self.update_start,
            world.update_end,
        ) {
            Some(report) => seq![Action::EmitReport { report }],
            None => Seq::empty(),
        } + seq![Action::PresentFrame]
    }

    /// The six steps from the update of the player to the drawing of the help
    /// texts.
    proof fn lemma_update(self, world: World)
        requires
            self.phase == Phase::UpdatePlayer,
        ensures
            self.driven(world, 6) == self.at(Phase::UpdateEndClock),
            self.actions(world, 6) == self.update_actions(),
    {
        let s1 = self.at(Phase::SetModelview);
        let s2 = self.at(Phase::SetProjection);
        let s3 = self.at(Phase::UpdateLevel);
        let s4 = self.at(Phase::RenderScene);
        let s5 = self.at(Phase::RenderText);
        let s6 = self.at(Phase::UpdateEndClock);
        assert(s6.actions(world, 0) =~= Seq::<Action>::empty());
        self.lemma_step(world, 6, s1);
        s1.lemma_step(world, 5, s2);
        s2.lemma_step(world, 4, s3);
        s3.lemma_step(world, 3, s4);
        s4.lemma_step(world, 2, s5);
        s5.lemma_step(world, 1, s6);
        assert(self.actions(world, 6) =~= self.update_actions());
    }

    /// The steps from the end of the update phase to the end of the frame.
    proof fn lemma_present(self, world: World)
        requires
            self.phase == Phase::UpdateEndClock,
        ensures
            self.driven(world, self.present_actions(world).len()) == self.closed(world),
            self.actions(world, self.present_actions(world).len()) == self.present_actions(world),
    {
        let expected = self.present_actions(world);
        let done = self.closed(world);
        let report = self.telemetry.report(self.delta.ticks(), self.update_start, world.update_end);
        let s8 = GameState { phase: Phase::PresentFrame, ..done };
        assert(done.actions(world, 0) =~= Seq::<Action>::empty());
        match report {
            Some(r) => {
                let s7 = GameState { phase: Phase::EmitReport(r), ..done };
                assert(expected.len() == 3);
                self.lemma_step(world, 3, s7);
                s7.lemma_step(world, 2, s8);
                s8.lemma_step(world, 1, done);
                assert(self.actions(world, 3) =~= expected);
            },
            None => {
                assert(expected.len() == 2);
                self.lemma_step(world, 2, s8);
                s8.lemma_step(world, 1, done);
                assert(self.actions(world, 2) =~= expected);
            },
        }
    }

    /// A frame closes in eight steps, or in nine where a report falls due.
    pub proof fn law_closing(self, world: World)
        requires
            self.phase == Phase::UpdatePlayer,
        ensures
            self.driven(world, self.closing_actions(world).len()) == self.closed(world),
            self.actions(world, self.closing_actions(world).len()) == self.closing_actions(world),
    {
        let updated = self.at(Phase::UpdateEndClock);
        let n = updated.present_actions(world).len();
        self.lemma_update(world);
        updated.lemma_present(world);
        self.lemma_driven_add(world, 6, n);
        assert(self.closing_actions(world) =~= self.update_actions() + updated.present_actions(
            world,
        ));
    }

    /// What the game does in a frame, event by event, is what the frame is as
    /// a whole: the driver performs the frame's actions in their order, and
    /// the game is then in the state after the frame.
    pub proof fn law_frame(self, world: World)
        requires
            self.phase == Phase::AcquireFrame,
        ensures
            self.driven(world, self.frame_actions(world).len()) == self.framed(world),
            self.actions(world, self.frame_actions(world).len()) == self.frame_actions(world),
    {
        let opened = self.opened(world);
        let dispatched = opened.dispatched(world);
        let m = opened.dispatch_actions(world).len();
        let n = dispatched.closing_actions(world).len();
        self.law_opening(world);
        opened.law_dispatch(world);
        dispatched.law_closing(world);
        self.lemma_driven_add(world, 4, m);
        self.lemma_driven_add(world, 4 + m, n);
    }
    /// The delta of a frame. Where the clock has not advanced since the frame
    /// before, whether it stood still or ran backwards, the frame counts as
    /// the nominal sixtieth of a second; otherwise as the time that has
    /// passed. The reading is kept for the next frame in both cases, and
    /// player, level and scene are all advanced by this one delta.
    pub proof fn law_delta(self, world: World)
        ensures
            world.frame_start <= self.last_frame ==> {
                &&& self.framed(world).delta.measured() is None
                &&& self.framed(world).delta.ticks() == NOMINAL_FRAME_TICKS
            },
            world.frame_start > self.last_frame ==> {
                &&& self.framed(world).delta.measured() == Some(
                    (world.frame_start - self.last_frame) as u64,
                )
                &&& self.framed(world).delta.ticks() == TICKS_PER_NANO * (world.frame_start
                    - self.last_frame)
            },
            self.framed(world).last_frame == world.frame_start,
            self.opened(world).dispatched(world).update_actions() == seq![
                Action::UpdatePlayer { delta: self.framed(world).delta },
                Action::SetModelview,
                Action::SetProjection,
                Action::UpdateLevel { delta: self.framed(world).delta },
                Action::RenderScene { delta: self.framed(world).delta },
                Action::RenderText,
            ],
    {
        Delta::lemma_of(Delta::elapsed(self.last_frame, world.frame_start));
    }

    /// A quit gesture wins over every other gesture of its frame. No other
    /// gesture is polled; the help overlay and the mouse grab stay as they
    /// are, whatever else has registered. The frame is still completed, and
    /// it is the last.
    pub proof fn law_quit_wins(self, world: World)
        requires
            world.snapshot.quit,
        ensures
            self.framed(world).help == self.help,
            self.framed(world).visibility == self.visibility,
            self.framed(world).mouse_grabbed == self.mouse_grabbed,
            !self.framed(world).running,
            self.framed(world).phase == Phase::Finished,
            self.framed(world).pending() == Action::Exit,
            self.frame_actions(world) == GameState::opening_actions() + seq![
                Action::PollGesture { gesture: Gesture::Quit },
            ] + self.opened(world).dispatched(world).closing_actions(world),
    {
        assert(self.opened(world).dispatch_actions(world) =~= seq![
            Action::PollGesture { gesture: Gesture::Quit },
        ]);
    }

    /// A grab gesture that wins its frame flips the mouse grab and tells the
    /// controller so, first for the pointer motion and then for the cursor.
    /// A second one restores what was before.
    pub proof fn law_grab_toggle(self, first: World, second: World)
        requires
            first.snapshot.winner() == Some(Gesture::ToggleGrab),
            second.snapshot.winner() == Some(Gesture::ToggleGrab),
        ensures
            self.framed(first).mouse_grabbed == !self.mouse_grabbed,
            self.opened(first).effect_actions(first) == seq![
                Action::SetMouseEnabled { enabled: !self.mouse_grabbed },
                Action::SetCursorGrabbed { grabbed: !self.mouse_grabbed },
            ],
            self.framed(first).framed(second).mouse_grabbed == self.mouse_grabbed,
            self.framed(first).opened(second).effect_actions(second) == seq![
                Action::SetMouseEnabled { enabled: self.mouse_grabbed },
                Action::SetCursorGrabbed { grabbed: self.mouse_grabbed },
            ],
            self.framed(first).help == self.help,
            self.framed(first).running == self.running,
    {
    }

    /// A help gesture that wins its frame advances the help overlay by one
    /// toggle and has the text renderer follow.
    pub proof fn law_help_toggle(self, world: World)
        requires
            world.snapshot.winner() == Some(Gesture::ToggleHelp),
            self.visibility == self.help.visibility(),
        ensures
            self.framed(world).help == self.help.toggled(),
            self.framed(world).help != HelpState::Short,
            self.framed(world).visibility == self.help.toggled().visibility(),
            self.opened(world).effect_actions(world) == change_actions(
                self.help.toggled().entry_changes(),
            ),
            self.framed(world).mouse_grabbed == self.mouse_grabbed,
            self.framed(world).running == self.running,
    {
        lemma_entry_changes_reach_state(self.help);
    }

    /// A frame in which no gesture registers changes neither the help
    /// overlay, nor the mouse grab, nor whether the loop goes on.
    pub proof fn law_quiet_frame(self, world: World)
        requires
            world.snapshot.winner() is None,
        ensures
            self.framed(world).help == self.help,
            self.framed(world).visibility == self.visibility,
            self.framed(world).mouse_grabbed == self.mouse_grabbed,
            self.framed(world).running == self.running,
            self.frame_actions(world) == GameState::opening_actions() + seq![
                Action::PollGesture { gesture: Gesture::Quit },
                Action::PollGesture { gesture: Gesture::ToggleGrab },
                Action::PollGesture { gesture: Gesture::ToggleHelp },
            ] + self.opened(world).dispatched(world).closing_actions(world),
    {
        assert(self.opened(world).dispatch_actions(world) =~= seq![
            Action::PollGesture { gesture: Gesture::Quit },
            Action::PollGesture { gesture: Gesture::ToggleGrab },
            Action::PollGesture { gesture: Gesture::ToggleHelp },
        ]);
    }

    /// A frame adds itself to the telemetry. A report is emitted in the frame
    /// with which the simulation time exceeds two seconds, after the update
    /// phase and before the frame is presented, and in no other.
    pub proof fn law_report(self, world: World)
        ensures
            self.framed(world).telemetry == self.telemetry.after(
                self.framed(world).delta.ticks(),
                world.update_start,
                world.update_end,
            ),
            self.opened(world).dispatched(world).present_actions(world) == match self.telemetry.report(
                self.framed(world).delta.ticks(),
                world.update_start,
                world.update_end,
            ) {
                Some(report) => seq![
                    Action::ReadClock { moment: Moment::UpdateEnd },
                    Action::EmitReport { report },
                    Action::PresentFrame,
                ],
                None => seq![
                    Action::ReadClock { moment: Moment::UpdateEnd },
                    Action::PresentFrame,
                ],
            },
    {
        let before = self.opened(world).dispatched(world);
        assert(before.telemetry == self.telemetry);
        assert(before.delta == self.framed(world).delta);
        assert(before.update_start == world.update_start);
    }

    /// The game after a run of frames, one world for each. Once the game has
    /// left the loop no frame follows.
    pub open spec fn after_frames(self, worlds: Seq<World>) -> GameState
        decreases worlds.len(),
    {
        if worlds.len() == 0 {
            self
        } else {
            let before = self.after_frames(worlds.drop_last());
            if before.phase == Phase::AcquireFrame {
                before.framed(worlds.last())
            } else {
                before
            }
        }
    }

    /// Over any run of frames without a quit gesture the loop goes on, the
    /// help overlay has made one toggle for each frame that a help gesture
    /// won, the text renderer still shows what the overlay stands for if it
    /// did so before, and the mouse grab has flipped once for each frame that
    /// a grab gesture won.
    pub proof fn law_frames(self, worlds: Seq<World>)
        requires
            self.phase == Phase::AcquireFrame,
            self.running,
            forall|i: int| 0 <= i < worlds.len() ==> !(#[trigger] worlds[i]).snapshot.quit,
        ensures
            self.after_frames(worlds).phase == Phase::AcquireFrame,
            self.after_frames(worlds).running,
            self.after_frames(worlds).help == self.help.after_toggles(
                wins(worlds, Gesture::ToggleHelp),
            ),
            self.visibility == self.help.visibility() ==> self.after_frames(worlds).visibility
                == self.after_frames(worlds).help.visibility(),
            self.after_frames(worlds).mouse_grabbed == (self.mouse_grabbed == (wins(
                worlds,
                Gesture::ToggleGrab,
            ) % 2 == 0)),
        decreases worlds.len(),
    {
        if worlds.len() > 0 {
            let before = self.after_frames(worlds.drop_last());
            let world = worlds.last();
            self.law_frames(worlds.drop_last());
            assert(!worlds[worlds.len() - 1].snapshot.quit);
            if world.snapshot.winner() == Some(Gesture::ToggleHelp) && self.visibility
                == self.help.visibility() {
                before.law_help_toggle(world);
            }
        }
    }

    /// Over any run of frames without a quit gesture the telemetry gathers
    /// the frames one by one, each measured from the start of the frame
    /// before it, the first from the reading that the game holds.
    pub proof fn law_frames_telemetry(self, worlds: Seq<World>)
        requires
            self.phase == Phase::AcquireFrame,
            self.running,
            forall|i: int| 0 <= i < worlds.len() ==> !(#[trigger] worlds[i]).snapshot.quit,
        ensures
            self.after_frames(worlds).telemetry == self.telemetry.after_frames(
                samples(self.last_frame, worlds),
            ),
            self.after_frames(worlds).last_frame == if worlds.len() == 0 {
                self.last_frame
            } else {
                worlds.last().frame_start
            },
            samples(self.last_frame, worlds).len() == worlds.len(),
        decreases worlds.len(),
    {
        if worlds.len() > 0 {
            let earlier = worlds.drop_last();
            self.law_frames(earlier);
            self.law_frames_telemetry(earlier);
            assert(samples(self.last_frame, worlds).drop_last() =~= samples(
                self.last_frame,
                earlier,
            ));
        }
    }

    /// Whether a quit gesture has registered in the current frame: the loop
    /// ends with this frame, which is past its dispatch.
    pub open spec fn quitting(self) -> bool {
        &&& !self.running
        &&& self.phase.update_step() is Some || self.phase is EmitReport || self.phase
            == Phase::PresentFrame
    }

    /// A quit gesture that registers leaves everything but the loop as it is.
    pub proof fn law_quit_registers(self)
        requires
            self.phase == Phase::PollGesture(Gesture::Quit),
        ensures
            self.after(Event::Polled(true)).quitting(),
            self.after(Event::Polled(true)) == (GameState {
                running: false,
                phase: Phase::UpdatePlayer,
                ..self
            }),
    {
    }

    /// A quit gesture that has registered is the end of all gestures,
    /// whatever is reported to the game afterwards. No gesture is polled
    /// again; the help overlay, what the text renderer shows and the mouse
    /// grab stay as they are; the frame is completed, unless it fails, and no
    /// frame follows.
    pub proof fn law_quit_is_final(self, events: Seq<Event>)
        requires
            self.quitting(),
        ensures
            self.after_all(events).quitting() || self.after_all(events).phase.is_terminal(),
            self.after_all(events).help == self.help,
            self.after_all(events).visibility == self.visibility,
            self.after_all(events).mouse_grabbed == self.mouse_grabbed,
            !(self.after_all(events).pending() is PollGesture),
            self.after_all(events).phase != Phase::AcquireFrame,
        decreases events.len(),
    {
        if events.len() > 0 {
            self.law_quit_is_final(events.drop_last());
        }
    }

    /// The help overlay changes only when a help gesture registers, and it
    /// never comes back to the short help, whatever is reported to the game.
    pub proof fn law_short_help_never_returns(self, events: Seq<Event>)
        ensures
            self.help != HelpState::Short ==> self.after_all(events).help != HelpState::Short,
            events.len() > 0 ==> {
                let before = self.after_all(events.drop_last());
                let after = self.after_all(events);
                after.help == before.help || (before.phase == Phase::PollGesture(
                    Gesture::ToggleHelp,
                ) && events.last() == Event::Polled(true) && after.help == before.help.toggled())
            },
        decreases events.len(),
    {
        if events.len() > 0 {
            self.law_short_help_never_returns(events.drop_last());
        }
    }

    /// The mouse grab changes only when a grab gesture registers, and the
    /// loop is left only when a quit gesture registers; a loop that has been
    /// left is not entered again.
    pub proof fn law_flags_follow_gestures(self, event: Event)
        ensures
            self.after(event).mouse_grabbed != self.mouse_grabbed ==> self.phase
                == Phase::PollGesture(Gesture::ToggleGrab) && event == Event::Polled(true),
            self.after(event).running != self.running ==> self.phase == Phase::PollGesture(
                Gesture::Quit,
            ) && event == Event::Polled(true) && self.running,
            self.after(event).config == self.config,
    {
    }

}

} // verus!
