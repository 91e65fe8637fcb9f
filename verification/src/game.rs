//! The game that a driver runs.

use vstd::prelude::*;
use crate::clock::precise_nanos;
use crate::config::GameConfig;
use crate::errors::{GameError, Source};
use crate::gesture::Gesture;
use crate::machine::{GameState, Phase};
use crate::overlay::{HelpState, Overlay, Visibility, VisibilityChange};
use crate::protocol::{
    Action, Event, Moment, ASPECT_WIDENING_DENOMINATOR, ASPECT_WIDENING_NUMERATOR, OVERLAY_X,
    OVERLAY_Y, OVERLAY_Z_ORDER,
};
use crate::telemetry::{Delta, Telemetry};

verus! {

/// One game, from its configuration to the end of its frame loop.
///
/// The driver performs the pending action, reports the result with
/// [`Game::run`] and receives the next action, until that is one of
/// `Exit`, `Fail` and `Abort`.
#[derive(Debug)]
pub struct Game {
    config: GameConfig,
    phase: Phase,
    last_frame: u64,
    update_start: u64,
    delta: Delta,
    mouse_grabbed: bool,
    running: bool,
    help: HelpState,
    visibility: Visibility,
    telemetry: Telemetry,
}

impl View for Game {
    type V = GameState;

    closed spec fn view(&self) -> GameState {
        GameState {
            config: self.config,
            phase: self.phase,
            last_frame: self.last_frame,
            update_start: self.update_start,
            delta: self.delta,
            mouse_grabbed: self.mouse_grabbed,
            running: self.running,
            help: self.help,
            visibility: self.visibility,
            telemetry: self.telemetry@,
        }
    }
}

impl Game {
    /// A game that has acquired nothing yet. Its first action is to acquire
    /// the platform context.
    pub fn new(config: GameConfig) -> (game: Game)
        ensures
            game@ == GameState::initial(config),
    {
        Game {
            config,
            phase: Phase::InitPlatform,
            last_frame: 0,
            update_start: 0,
            delta: Delta::nominal(),
            mouse_grabbed: true,
            running: true,
            help: HelpState::initial(),
            visibility: Visibility { short_help: false, long_help: false },
            telemetry: Telemetry::new(),
        }
    }

    /// The configuration that the game was started with.
    pub fn config(&self) -> (config: &GameConfig)
        ensures
            *config == self@.config,
    {
        &self.config
    }

    /// Where the game stands.
    pub fn phase(&self) -> (phase: &Phase)
        ensures
            *phase == self@.phase,
    {
        &self.phase
    }

    /// Whether the game has ended.
    pub fn is_over(&self) -> (over: bool)
        ensures
            over == self@.phase.is_terminal(),
    {
        match &self.phase {
            Phase::Finished => true,
            Phase::Failed(_) => true,
            Phase::Aborted(_) => true,
            _ => false,
        }
    }

    /// The clock reading at the start of the frame before, or of the loop.
    pub fn last_frame(&self) -> (reading: u64)
        ensures
            reading == self@.last_frame,
    {
        self.last_frame
    }

    /// The delta of the current frame.
    pub fn delta(&self) -> (delta: Delta)
        ensures
            delta == self@.delta,
    {
        self.delta
    }

    /// Whether the mouse is grabbed.
    pub fn mouse_grabbed(&self) -> (grabbed: bool)
        ensures
            grabbed == self@.mouse_grabbed,
    {
        self.mouse_grabbed
    }

    /// Whether another frame follows the current one.
    pub fn is_running(&self) -> (running: bool)
        ensures
            running == self@.running,
    {
        self.running
    }

    /// What the help overlay shows.
    pub fn help(&self) -> (help: HelpState)
        ensures
            help == self@.help,
    {
        self.help
    }

    /// What the text renderer has been told to show.
    pub fn visibility(&self) -> (visibility: Visibility)
        ensures
            visibility == self@.visibility,
    {
        self.visibility
    }

    /// The telemetry gathered since the last report.
    pub fn telemetry(&self) -> (telemetry: &Telemetry)
        ensures
            telemetry@ == self@.telemetry,
    {
        &self.telemetry
    }

    /// The action whose result the game waits for.
    pub fn pending(&self) -> (action: Action)
        ensures
            action == self@.pending(),
    {
        match &self.phase {
            Phase::InitPlatform => Action::InitPlatform,
            Phase::CreateWindow => Action::CreateWindow {
                width: self.config.width,
                height: self.config.height,
            },
            Phase::OpenArchive => Action::OpenArchive {
                wad_file: self.config.wad_file.clone(),
                metadata_file: self.config.metadata_file.clone(),
            },
            Phase::BuildTextures => Action::BuildTextures,
            Phase::CreateSceneBuilder => Action::CreateSceneBuilder,
            Phase::BuildLevel => Action::BuildLevel { level_index: self.config.level_index },
            Phase::BuildScene => Action::BuildScene,
            Phase::CreatePlayer => Action::CreatePlayer {
                fov_bits: self.config.fov_bits,
                widen_by: (ASPECT_WIDENING_NUMERATOR, ASPECT_WIDENING_DENOMINATOR),
            },
            Phase::PlacePlayer => Action::PlacePlayer,
            Phase::CreateController => Action::CreateController,
            Phase::CreateTextRenderer => Action::CreateTextRenderer,
            Phase::Assemble => Action::Assemble,
            Phase::InsertShortHelp => Action::InsertOverlay {
                overlay: Overlay::ShortHelp,
                x: OVERLAY_X,
                y: OVERLAY_Y,
                z_order: OVERLAY_Z_ORDER,
            },
            Phase::InsertLongHelp => Action::InsertOverlay {
                overlay: Overlay::LongHelp,
                x: OVERLAY_X,
                y: OVERLAY_Y,
                z_order: OVERLAY_Z_ORDER,
            },
            Phase::ConcealLongHelp => Action::SetOverlayVisible {
                overlay: Overlay::LongHelp,
                visible: false,
            },
            Phase::StartClock => Action::ReadClock { moment: Moment::LoopStart },
            Phase::AcquireFrame => Action::AcquireFrame,
            Phase::FrameClock => Action::ReadClock { moment: Moment::FrameStart },
            Phase::UpdateStartClock => Action::ReadClock { moment: Moment::UpdateStart },
            Phase::PollInput => Action::PollInput,
            Phase::PollGesture(gesture) => Action::PollGesture { gesture: *gesture },
            Phase::EnableMouse => Action::SetMouseEnabled { enabled: self.mouse_grabbed },
            Phase::GrabCursor => Action::SetCursorGrabbed { grabbed: self.mouse_grabbed },
            Phase::HideShortHelp => Action::SetOverlayVisible {
                overlay: Overlay::ShortHelp,
                visible: false,
            },
            Phase::ShowLongHelp => Action::SetOverlayVisible {
                overlay: Overlay::LongHelp,
                visible: true,
            },
            Phase::HideLongHelp => Action::SetOverlayVisible {
                overlay: Overlay::LongHelp,
                visible: false,
            },
            Phase::UpdatePlayer => Action::UpdatePlayer { delta: self.delta },
            Phase::SetModelview => Action::SetModelview,
            Phase::SetProjection => Action::SetProjection,
            Phase::UpdateLevel => Action::UpdateLevel { delta: self.delta },
            Phase::RenderScene => Action::RenderScene { delta: self.delta },
            Phase::RenderText => Action::RenderText,
            Phase::UpdateEndClock => Action::ReadClock { moment: Moment::UpdateEnd },
            Phase::EmitReport(report) => Action::EmitReport { report: *report },
            Phase::PresentFrame => Action::PresentFrame,
            Phase::Finished => Action::Exit,
            Phase::Failed(error) => Action::Fail { error: error.clone() },
            Phase::Aborted(error) => Action::Abort { error: error.clone() },
        }
    }

    /// Moves on after a step that cannot fail.
    fn perform(&mut self, event: Event, next: Phase)
        ensures
            final(self)@ == old(self)@.perform(event, next),
    {
        match event {
            Event::Done => {
                self.phase = next;
            },
            _ => {},
        }
    }

    /// Moves on after a step that can fail.
    fn attempt(&mut self, event: Event, next: Phase, source: Source)
        ensures
            final(self)@ == old(self)@.attempt(event, next, source),
    {
        match event {
            Event::Done => {
                self.phase = next;
            },
            Event::Failed(diagnostic) => {
                self.phase = Phase::Failed(source.into_error(diagnostic));
            },
            _ => {},
        }
    }

    /// Moves on after a step on a frame.
    fn attempt_frame(&mut self, event: Event, next: Phase)
        ensures
            final(self)@ == old(self)@.attempt_frame(event, next),
    {
        match event {
            Event::Done => {
                self.phase = next;
            },
            Event::Failed(diagnostic) => {
                self.phase = Phase::Aborted(Source::Frame.into_error(diagnostic));
            },
            _ => {},
        }
    }

    /// Moves on after a change of visibility.
    fn show(&mut self, event: Event, change: VisibilityChange, next: Phase)
        ensures
            final(self)@ == old(self)@.show(event, change, next),
    {
        match event {
            Event::Done => {
                self.visibility = self.visibility.apply(change);
                self.phase = next;
            },
            _ => {},
        }
    }

    /// Moves on after a gesture has been polled.
    fn polled(&mut self, gesture: Gesture, event: Event)
        ensures
            final(self)@ == old(self)@.polled(gesture, event),
    {
        match event {
            Event::Polled(true) => match gesture {
                Gesture::Quit => {
                    self.running = false;
                    self.phase = Phase::UpdatePlayer;
                },
                Gesture::ToggleGrab => {
                    self.mouse_grabbed = !self.mouse_grabbed;
                    self.phase = Phase::EnableMouse;
                },
                Gesture::ToggleHelp => {
                    self.phase = match self.help {
                        HelpState::Short => Phase::HideShortHelp,
                        HelpState::Long => Phase::HideLongHelp,
                        HelpState::Hidden => Phase::HideShortHelp,
                    };
                    self.help = self.help.toggle();
                },
            },
            Event::Polled(false) => match gesture.next() {
                Some(next) => {
                    self.phase = Phase::PollGesture(next);
                },
                None => {
                    self.phase = Phase::UpdatePlayer;
                },
            },
            _ => {},
        }
    }

    /// Checks the level index once the archive is open.
    fn archive_opened(&mut self, event: Event)
        ensures
            final(self)@ == old(self)@.archive_opened(event),
    {
        match event {
            Event::ArchiveOpened { num_levels } => {
                if self.config.has_level(num_levels) {
                    self.phase = Phase::BuildTextures;
                } else {
                    self.phase = Phase::Failed(
                        GameError::Config { level_index: self.config.level_index, num_levels },
                    );
                }
            },
            Event::Failed(diagnostic) => {
                self.phase = Phase::Failed(Source::Archive.into_error(diagnostic));
            },
            _ => {},
        }
    }

    /// Takes the clock reading that the first frame is measured from.
    fn loop_clocked(&mut self, event: Event)
        ensures
            final(self)@ == old(self)@.loop_clocked(event),
    {
        match event {
            Event::Clock(now) => {
                self.last_frame = now;
                self.phase = Phase::AcquireFrame;
            },
            _ => {},
        }
    }

    /// Takes the clock reading at the start of a frame.
    fn frame_clocked(&mut self, event: Event)
        ensures
            final(self)@ == old(self)@.frame_clocked(event),
    {
        match event {
            Event::Clock(now) => {
                self.delta = Delta::between(self.last_frame, now);
                self.last_frame = now;
                self.phase = Phase::UpdateStartClock;
            },
            _ => {},
        }
    }

    /// Takes the clock reading at the start of an update phase.
    fn update_started(&mut self, event: Event)
        ensures
            final(self)@ == old(self)@.update_started(event),
    {
        match event {
            Event::Clock(now) => {
                self.update_start = now;
                self.phase = Phase::PollInput;
            },
            _ => {},
        }
    }

    /// Takes the clock reading at the end of an update phase.
    fn update_clocked(&mut self, event: Event)
        ensures
            final(self)@ == old(self)@.update_clocked(event),
    {
        match event {
            Event::Clock(now) => {
                let report = self.telemetry.record(self.delta, self.update_start, now);
                self.phase = match report {
                    Some(report) => Phase::EmitReport(report),
                    None => Phase::PresentFrame,
                };
            },
            _ => {},
        }
    }

    /// Moves on after the frame has been presented.
    fn presented(&mut self, event: Event)
        ensures
            final(self)@ == old(self)@.presented(event),
    {
        let next = if self.running {
            Phase::AcquireFrame
        } else {
            Phase::Finished
        };
        self.attempt_frame(event, next)
    }

    /// Takes the result of the pending action. An event that does not answer
    /// the pending action is ignored.
    pub fn advance(&mut self, event: Event)
        ensures
            final(self)@ == old(self)@.after(event),
    {
        match &self.phase {
            Phase::InitPlatform => self.attempt(event, Phase::CreateWindow, Source::Platform),
            Phase::CreateWindow => self.attempt(event, Phase::OpenArchive, Source::Graphics),
            Phase::OpenArchive => self.archive_opened(event),
            Phase::BuildTextures => self.attempt(event, Phase::CreateSceneBuilder, Source::Texture),
            Phase::CreateSceneBuilder => self.perform(event, Phase::BuildLevel),
            Phase::BuildLevel => self.attempt(event, Phase::BuildScene, Source::LevelBuild),
            Phase::BuildScene => self.attempt(event, Phase::CreatePlayer, Source::Graphics),
            Phase::CreatePlayer => self.perform(event, Phase::PlacePlayer),
            Phase::PlacePlayer => self.perform(event, Phase::CreateController),
            Phase::CreateController => self.attempt(event, Phase::CreateTextRenderer, Source::Platform),
            Phase::CreateTextRenderer => self.attempt(event, Phase::Assemble, Source::Graphics),
            Phase::Assemble => self.perform(event, Phase::InsertShortHelp),
            Phase::InsertShortHelp => self.show(
                event,
                VisibilityChange { overlay: Overlay::ShortHelp, visible: true },
                Phase::InsertLongHelp,
            ),
            Phase::InsertLongHelp => self.show(
                event,
                VisibilityChange { overlay: Overlay::LongHelp, visible: true },
                Phase::ConcealLongHelp,
            ),
            Phase::ConcealLongHelp => self.show(
                event,
                VisibilityChange { overlay: Overlay::LongHelp, visible: false },
                Phase::StartClock,
            ),
            Phase::StartClock => self.loop_clocked(event),
            Phase::AcquireFrame => self.attempt_frame(event, Phase::FrameClock),
            Phase::FrameClock => self.frame_clocked(event),
            Phase::UpdateStartClock => self.update_started(event),
            Phase::PollInput => self.perform(event, Phase::PollGesture(Gesture::first())),
            Phase::PollGesture(gesture) => {
                let gesture = *gesture;
                self.polled(gesture, event)
            },
            Phase::EnableMouse => self.perform(event, Phase::GrabCursor),
            Phase::GrabCursor => self.perform(event, Phase::UpdatePlayer),
            Phase::HideShortHelp => self.show(
                event,
                VisibilityChange { overlay: Overlay::ShortHelp, visible: false },
                Phase::ShowLongHelp,
            ),
            Phase::ShowLongHelp => self.show(
                event,
                VisibilityChange { overlay: Overlay::LongHelp, visible: true },
                Phase::UpdatePlayer,
            ),
            Phase::HideLongHelp => self.show(
                event,
                VisibilityChange { overlay: Overlay::LongHelp, visible: false },
                Phase::UpdatePlayer,
            ),
            Phase::UpdatePlayer => self.perform(event, Phase::SetModelview),
            Phase::SetModelview => self.perform(event, Phase::SetProjection),
            Phase::SetProjection => self.perform(event, Phase::UpdateLevel),
            Phase::UpdateLevel => self.perform(event, Phase::RenderScene),
            Phase::RenderScene => self.attempt(event, Phase::RenderText, Source::Graphics),
            Phase::RenderText => self.attempt(event, Phase::UpdateEndClock, Source::Graphics),
            Phase::UpdateEndClock => self.update_clocked(event),
            Phase::EmitReport(_) => self.perform(event, Phase::PresentFrame),
            Phase::PresentFrame => self.presented(event),
            Phase::Finished => {},
            Phase::Failed(_) => {},
            Phase::Aborted(_) => {},
        }
    }

    /// Takes the result of the pending action and hands out the next. The
    /// game reads the clock itself, as often as it asks for it in a row: the
    /// action that comes back is never `ReadClock`. Which readings the clock
    /// gives is not known beforehand; the game is then as if they had been
    /// reported one by one.
    pub fn run(&mut self, event: Event) -> (action: Action)
        ensures
            exists|readings: Seq<u64>|
                {
                    &&& readings.len() == old(self)@.after(event).phase.clock_reads_ahead()
                    &&& final(self)@ == #[trigger] old(self)@.after(event).timed(readings)
                },
            !old(self)@.after(event).awaits_clock() ==> final(self)@ == old(self)@.after(event),
            !final(self)@.awaits_clock(),
            action == final(self)@.pending(),
    {
        self.advance(event);
        let ghost start = self@;
        let ghost mut readings = Seq::<u64>::empty();
        let mut action = self.pending();
        while action.is_clock()
            invariant
                self@ == start.timed(readings),
                readings.len() + self@.phase.clock_reads_ahead()
                    == start.phase.clock_reads_ahead(),
                !start.awaits_clock() ==> self@ == start,
                action == self@.pending(),
            decreases self@.phase.clock_reads_ahead(),
        {
            let now = precise_nanos();
            self.advance(Event::Clock(now));
            proof {
                assert(readings.push(now).drop_last() == readings);
                readings = readings.push(now);
            }
            action = self.pending();
        }
        action
    }
}

} // verus!
