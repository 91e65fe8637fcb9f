//! The game as a state machine: its states, what it asks for in each, and
//! where each answer leads.
//!
//! A game first acquires its resources, in a fixed order and giving up at the
//! first failure. It then registers the help texts and runs frame after frame
//! until a quit gesture registers. In every state exactly one action is
//! pending; an event that answers it moves the game on, and any other event is
//! ignored.

use vstd::prelude::*;
use crate::config::GameConfig;
use crate::errors::{GameError, Source};
use crate::gesture::Gesture;
use crate::overlay::{HelpState, Overlay, Visibility, VisibilityChange};
use crate::protocol::{
    Action, Event, Moment, ASPECT_WIDENING_DENOMINATOR, ASPECT_WIDENING_NUMERATOR, OVERLAY_X,
    OVERLAY_Y, OVERLAY_Z_ORDER,
};
use crate::telemetry::{Delta, Report, TelemetryModel};

verus! {

/// Where a game stands: the piece of outside work whose result it waits for.
#[derive(Debug, PartialEq, Eq)]
pub enum Phase {
    InitPlatform,
    CreateWindow,
    OpenArchive,
    BuildTextures,
    CreateSceneBuilder,
    BuildLevel,
    BuildScene,
    CreatePlayer,
    PlacePlayer,
    CreateController,
    CreateTextRenderer,
    /// Every resource is acquired.
    Assemble,
    InsertShortHelp,
    InsertLongHelp,
    /// The long help, just registered, is hidden before the first frame.
    ConcealLongHelp,
    StartClock,
    AcquireFrame,
    FrameClock,
    UpdateStartClock,
    PollInput,
    PollGesture(Gesture),
    EnableMouse,
    GrabCursor,
    HideShortHelp,
    ShowLongHelp,
    HideLongHelp,
    UpdatePlayer,
    SetModelview,
    SetProjection,
    UpdateLevel,
    RenderScene,
    RenderText,
    UpdateEndClock,
    EmitReport(Report),
    PresentFrame,
    /// The loop has ended on a quit gesture.
    Finished,
    /// The game has given up with an error that its caller receives.
    Failed(GameError),
    /// The game cannot go on, nor hand the error to anyone.
    Aborted(GameError),
}

/// All that a game knows.
pub struct GameState {
    pub config: GameConfig,
    pub phase: Phase,
    /// The clock reading at the start of the frame before, or of the loop.
    pub last_frame: u64,
    /// The clock reading at the start of the current update phase.
    pub update_start: u64,
    /// The delta of the current frame.
    pub delta: Delta,
    /// Whether the mouse is grabbed.
    pub mouse_grabbed: bool,
    /// Whether another frame follows the current one.
    pub running: bool,
    pub help: HelpState,
    /// What the text renderer has been told to show.
    pub visibility: Visibility,
    pub telemetry: TelemetryModel,
}

impl Phase {
    /// Whether the game has ended.
    pub open spec fn is_terminal(self) -> bool {
        self is Finished || self is Failed || self is Aborted
    }

    /// How many readings of the clock the game asks for in a row, from this
    /// phase on.
    pub open spec fn clock_reads_ahead(self) -> nat {
        match self {
            Phase::StartClock => 1,
            Phase::FrameClock => 2,
            Phase::UpdateStartClock => 1,
            Phase::UpdateEndClock => 1,
            _ => 0,
        }
    }

    /// The phase in which the first change of visibility is made after a
    /// toggle of an overlay that was in `state`: the long help comes up in
    /// two changes, and goes away in one.
    pub open spec fn after_toggle(state: HelpState) -> Phase {
        match state {
            HelpState::Short => Phase::HideShortHelp,
            HelpState::Long => Phase::HideLongHelp,
            HelpState::Hidden => Phase::HideShortHelp,
        }
    }
}

impl GameState {
    /// A game that has acquired nothing yet.
    pub open spec fn initial(config: GameConfig) -> GameState {
        GameState {
            config,
            phase: Phase::InitPlatform,
            last_frame: 0,
            update_start: 0,
            delta: Delta::of(None),
            mouse_grabbed: true,
            running: true,
            help: HelpState::Short,
            visibility: Visibility { short_help: false, long_help: false },
            telemetry: TelemetryModel::zero(),
        }
    }

    /// The same game in another phase.
    pub open spec fn at(self, phase: Phase) -> GameState {
        GameState { phase, ..self }
    }

    /// The game after a step that cannot fail.
    pub open spec fn perform(self, event: Event, next: Phase) -> GameState {
        match event {
            Event::Done => self.at(next),
            _ => self,
        }
    }

    /// The game after a step that can fail: the game then gives up with the
    /// diagnostic of the collaborator that failed.
    pub open spec fn attempt(self, event: Event, next: Phase, source: Source) -> GameState {
        match event {
            Event::Done => self.at(next),
            Event::Failed(diagnostic) => self.at(Phase::Failed(source.error(diagnostic))),
            _ => self,
        }
    }

    /// The game after a step on a frame: its failure cannot be recovered
    /// from.
    pub open spec fn attempt_frame(self, event: Event, next: Phase) -> GameState {
        match event {
            Event::Done => self.at(next),
            Event::Failed(diagnostic) => self.at(Phase::Aborted(Source::Frame.error(diagnostic))),
            _ => self,
        }
    }

    /// The game after a change of visibility has been made.
    pub open spec fn show(self, event: Event, change: VisibilityChange, next: Phase) -> GameState {
        match event {
            Event::Done => GameState {
                visibility: self.visibility.changed(change),
                phase: next,
                ..self
            },
            _ => self,
        }
    }

    /// The game once the archive is open: the level index is checked against
    /// the number of levels before anything more is acquired.
    pub open spec fn archive_opened(self, event: Event) -> GameState {
        match event {
            Event::ArchiveOpened { num_levels } => if self.config.names_level_of(num_levels) {
                self.at(Phase::BuildTextures)
            } else {
                self.at(
                    Phase::Failed(
                        GameError::Config { level_index: self.config.level_index, num_levels },
                    ),
                )
            },
            Event::Failed(diagnostic) => self.at(Phase::Failed(Source::Archive.error(diagnostic))),
            _ => self,
        }
    }

    /// The game once the clock is read before the first frame: the first
    /// frame is measured from this reading.
    pub open spec fn loop_clocked(self, event: Event) -> GameState {
        match event {
            Event::Clock(now) => GameState { last_frame: now, phase: Phase::AcquireFrame, ..self },
            _ => self,
        }
    }

    /// The game once the clock is read at the start of an update phase.
    pub open spec fn update_started(self, event: Event) -> GameState {
        match event {
            Event::Clock(now) => GameState { update_start: now, phase: Phase::PollInput, ..self },
            _ => self,
        }
    }

    /// The game once a frame's clock is read: the frame's delta is the time
    /// since the frame before, or the nominal frame where the clock has not
    /// advanced, and the reading is kept for the next frame either way.
    pub open spec fn frame_clocked(self, event: Event) -> GameState {
        match event {
            Event::Clock(now) => GameState {
                delta: Delta::of(Delta::elapsed(self.last_frame, now)),
                last_frame: now,
                phase: Phase::UpdateStartClock,
                ..self
            },
            _ => self,
        }
    }

    /// The game once a gesture is polled. The first gesture that registers
    /// takes effect and ends the polling; one that does not gives way to the
    /// next.
    pub open spec fn polled(self, gesture: Gesture, event: Event) -> GameState {
        match event {
            Event::Polled(true) => match gesture {
                Gesture::Quit => GameState { running: false, phase: Phase::UpdatePlayer, ..self },
                Gesture::ToggleGrab => GameState {
                    mouse_grabbed: !self.mouse_grabbed,
                    phase: Phase::EnableMouse,
                    ..self
                },
                Gesture::ToggleHelp => GameState {
                    help: self.help.toggled(),
                    phase: Phase::after_toggle(self.help),
                    ..self
                },
            },
            Event::Polled(false) => match gesture.successor() {
                Some(next) => self.at(Phase::PollGesture(next)),
                None => self.at(Phase::UpdatePlayer),
            },
            _ => self,
        }
    }

    /// The game once the update phase has ended: the frame is added to the
    /// telemetry, and a report that falls due is emitted before the frame is
    /// presented.
    pub open spec fn update_clocked(self, event: Event) -> GameState {
        match event {
            Event::Clock(now) => GameState {
                telemetry: self.telemetry.after(self.delta.ticks(), self.update_start, now),
                phase: match self.telemetry.report(self.delta.ticks(), self.update_start, now) {
                    Some(report) => Phase::EmitReport(report),
                    None => Phase::PresentFrame,
                },
                ..self
            },
            _ => self,
        }
    }

    /// The game once the frame is presented: the next frame, or the end where
    /// a quit gesture has registered.
    pub open spec fn presented(self, event: Event) -> GameState {
        self.attempt_frame(
            event,
            if self.running {
                Phase::AcquireFrame
            } else {
                Phase::Finished
            },
        )
    }

    /// The game after an event.
    pub open spec fn after(self, event: Event) -> GameState {
        match self.phase {
            Phase::InitPlatform => self.attempt(event, Phase::CreateWindow, Source::Platform),
            Phase::CreateWindow => self.attempt(event, Phase::OpenArchive, Source::Graphics),
            Phase::OpenArchive => self.archive_opened(event),
            Phase::BuildTextures => self.attempt(event, Phase::CreateSceneBuilder, Source::Texture),
            Phase::CreateSceneBuilder => self.perform(event, Phase::BuildLevel),
            Phase::BuildLevel => self.attempt(event, Phase::BuildScene, Source::LevelBuild),
            Phase::BuildScene => self.attempt(event, Phase::CreatePlayer, Source::Graphics),
            Phase::CreatePlayer => self.perform(event, Phase::PlacePlayer),
            Phase::PlacePlayer => self.perform(event, Phase::CreateController),
            Phase::CreateController => self.attempt(event, Phase::CreateTextRenderer, Source::Platform),
            Phase::CreateTextRenderer => self.attempt(event, Phase::Assemble, Source::Graphics),
            Phase::Assemble => self.perform(event, Phase::InsertShortHelp),
            Phase::InsertShortHelp => self.show(
                event,
                VisibilityChange { overlay: Overlay::ShortHelp, visible: true },
                Phase::InsertLongHelp,
            ),
            Phase::InsertLongHelp => self.show(
                event,
                VisibilityChange { overlay: Overlay::LongHelp, visible: true },
                Phase::ConcealLongHelp,
            ),
            Phase::ConcealLongHelp => self.show(
                event,
                VisibilityChange { overlay: Overlay::LongHelp, visible: false },
                Phase::StartClock,
            ),
            Phase::StartClock => self.loop_clocked(event),
            Phase::AcquireFrame => self.attempt_frame(event, Phase::FrameClock),
            Phase::FrameClock => self.frame_clocked(event),
            Phase::UpdateStartClock => self.update_started(event),
            Phase::PollInput => self.perform(event, Phase::PollGesture(Gesture::Quit)),
            Phase::PollGesture(gesture) => self.polled(gesture, event),
            Phase::EnableMouse => self.perform(event, Phase::GrabCursor),
            Phase::GrabCursor => self.perform(event, Phase::UpdatePlayer),
            Phase::HideShortHelp => self.show(
                event,
                VisibilityChange { overlay: Overlay::ShortHelp, visible: false },
                Phase::ShowLongHelp,
            ),
            Phase::ShowLongHelp => self.show(
                event,
                VisibilityChange { overlay: Overlay::LongHelp, visible: true },
                Phase::UpdatePlayer,
            ),
            Phase::HideLongHelp => self.show(
                event,
                VisibilityChange { overlay: Overlay::LongHelp, visible: false },
                Phase::UpdatePlayer,
            ),
            Phase::UpdatePlayer => self.perform(event, Phase::SetModelview),
            Phase::SetModelview => self.perform(event, Phase::SetProjection),
            Phase::SetProjection => self.perform(event, Phase::UpdateLevel),
            Phase::UpdateLevel => self.perform(event, Phase::RenderScene),
            Phase::RenderScene => self.attempt(event, Phase::RenderText, Source::Graphics),
            Phase::RenderText => self.attempt(event, Phase::UpdateEndClock, Source::Graphics),
            Phase::UpdateEndClock => self.update_clocked(event),
            Phase::EmitReport(_) => self.perform(event, Phase::PresentFrame),
            Phase::PresentFrame => self.presented(event),
            Phase::Finished => self,
            Phase::Failed(_) => self,
            Phase::Aborted(_) => self,
        }
    }

    /// The action whose result the game waits for.
    pub open spec fn pending(self) -> Action {
        match self.phase {
            Phase::InitPlatform => Action::InitPlatform,
            Phase::CreateWindow => Action::CreateWindow {
                width: self.config.width,
                height: self.config.height,
            },
            Phase::OpenArchive => Action::OpenArchive {
                wad_file: self.config.wad_file,
                metadata_file: self.config.metadata_file,
            },
            Phase::BuildTextures => Action::BuildTextures,
            Phase::CreateSceneBuilder => Action::CreateSceneBuilder,
            Phase::BuildLevel => Action::BuildLevel { level_index: self.config.level_index },
            Phase::BuildScene => Action::BuildScene,
            Phase::CreatePlayer => Action::CreatePlayer {
                fov_bits: self.config.fov_bits,
                widen_by: (ASPECT_WIDENING_NUMERATOR, ASPECT_WIDENING_DENOMINATOR),
            },
            Phase::PlacePlayer => Action::PlacePlayer,
            Phase::CreateController => Action::CreateController,
            Phase::CreateTextRenderer => Action::CreateTextRenderer,
            Phase::Assemble => Action::Assemble,
            Phase::InsertShortHelp => Action::InsertOverlay {
                overlay: Overlay::ShortHelp,
                x: OVERLAY_X,
                y: OVERLAY_Y,
                z_order: OVERLAY_Z_ORDER,
            },
            Phase::InsertLongHelp => Action::InsertOverlay {
                overlay: Overlay::LongHelp,
                x: OVERLAY_X,
                y: OVERLAY_Y,
                z_order: OVERLAY_Z_ORDER,
            },
            Phase::ConcealLongHelp => Action::SetOverlayVisible {
                overlay: Overlay::LongHelp,
                visible: false,
            },
            Phase::StartClock => Action::ReadClock { moment: Moment::LoopStart },
            Phase::AcquireFrame => Action::AcquireFrame,
            Phase::FrameClock => Action::ReadClock { moment: Moment::FrameStart },
            Phase::UpdateStartClock => Action::ReadClock { moment: Moment::UpdateStart },
            Phase::PollInput => Action::PollInput,
            Phase::PollGesture(gesture) => Action::PollGesture { gesture },
            Phase::EnableMouse => Action::SetMouseEnabled { enabled: self.mouse_grabbed },
            Phase::GrabCursor => Action::SetCursorGrabbed { grabbed: self.mouse_grabbed },
            Phase::HideShortHelp => Action::SetOverlayVisible {
                overlay: Overlay::ShortHelp,
                visible: false,
            },
            Phase::ShowLongHelp => Action::SetOverlayVisible {
                overlay: Overlay::LongHelp,
                visible: true,
            },
            Phase::HideLongHelp => Action::SetOverlayVisible {
                overlay: Overlay::LongHelp,
                visible: false,
            },
            Phase::UpdatePlayer => Action::UpdatePlayer { delta: self.delta },
            Phase::SetModelview => Action::SetModelview,
            Phase::SetProjection => Action::SetProjection,
            Phase::UpdateLevel => Action::UpdateLevel { delta: self.delta },
            Phase::RenderScene => Action::RenderScene { delta: self.delta },
            Phase::RenderText => Action::RenderText,
            Phase::UpdateEndClock => Action::ReadClock { moment: Moment::UpdateEnd },
            Phase::EmitReport(report) => Action::EmitReport { report },
            Phase::PresentFrame => Action::PresentFrame,
            Phase::Finished => Action::Exit,
            Phase::Failed(error) => Action::Fail { error },
            Phase::Aborted(error) => Action::Abort { error },
        }
    }

    /// Whether the game waits for a reading of the clock.
    pub open spec fn awaits_clock(self) -> bool {
        self.pending() is ReadClock
    }

    /// The game after a run of events, from the first to the last.
    pub open spec fn after_all(self, events: Seq<Event>) -> GameState
        decreases events.len(),
    {
        if events.len() == 0 {
            self
        } else {
            self.after_all(events.drop_last()).after(events.last())
        }
    }

    /// The game after a run of clock readings, from the first to the last.
    pub open spec fn timed(self, readings: Seq<u64>) -> GameState
        decreases readings.len(),
    {
        if readings.len() == 0 {
            self
        } else {
            self.timed(readings.drop_last()).after(Event::Clock(readings.last()))
        }
    }
}

} // verus!
