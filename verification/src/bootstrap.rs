//! The bootstrap as a whole.
//!
//! A game acquires its resources in one fixed order and gives up at the first
//! failure. The level index is checked as soon as the archive is open, before
//! textures, level, scene, player, controller or text renderer exist.

use vstd::prelude::*;
use crate::config::GameConfig;
use crate::driver::World;
use crate::errors::{GameError, Source};
use crate::machine::{GameState, Phase};
use crate::overlay::{Overlay, Visibility};
use crate::protocol::{
    Action, Event, Moment, ASPECT_WIDENING_DENOMINATOR, ASPECT_WIDENING_NUMERATOR, OVERLAY_X,
    OVERLAY_Y, OVERLAY_Z_ORDER,
};

verus! {

impl Phase {
    /// The collaborator whose failure makes the game give up in this phase,
    /// with an error for its caller. `None` in a phase whose action cannot
    /// fail, or cannot fail in a way that a caller could handle.
    pub open spec fn source(self) -> Option<Source> {
        match self {
            Phase::InitPlatform => Some(Source::Platform),
            Phase::CreateWindow => Some(Source::Graphics),
            Phase::OpenArchive => Some(Source::Archive),
            Phase::BuildTextures => Some(Source::Texture),
            Phase::BuildLevel => Some(Source::LevelBuild),
            Phase::BuildScene => Some(Source::Graphics),
            Phase::CreateController => Some(Source::Platform),
            Phase::CreateTextRenderer => Some(Source::Graphics),
            Phase::RenderScene => Some(Source::Graphics),
            Phase::RenderText => Some(Source::Graphics),
            _ => None,
        }
    }
}

impl Phase {
    /// The place of a phase in the bootstrap, from the first to the eleventh
    /// step and on to the assembly. `None` for a phase that is no part of it.
    pub open spec fn bootstrap_step(self) -> Option<nat> {
        match self {
            Phase::InitPlatform => Some(0),
            Phase::CreateWindow => Some(1),
            Phase::OpenArchive => Some(2),
            Phase::BuildTextures => Some(3),
            Phase::CreateSceneBuilder => Some(4),
            Phase::BuildLevel => Some(5),
            Phase::BuildScene => Some(6),
            Phase::CreatePlayer => Some(7),
            Phase::PlacePlayer => Some(8),
            Phase::CreateController => Some(9),
            Phase::CreateTextRenderer => Some(10),
            Phase::Assemble => Some(11),
            _ => None,
        }
    }
}

impl GameState {
    /// No step of the bootstrap is skipped and none comes out of turn,
    /// whatever is reported to the game. A game in the bootstrap stays where
    /// it is, moves on to the next step, or gives up; it moves on only when
    /// its action is reported done, and beyond the opening of the archive
    /// only with a level index that names one of the archive's levels.
    pub proof fn law_bootstrap_in_order(self, event: Event)
        requires
            self.phase.bootstrap_step() is Some,
            self.phase != Phase::Assemble,
        ensures
            ({
                let step = self.phase.bootstrap_step()->0;
                let next = self.after(event).phase;
                &&& next == self.phase || next.bootstrap_step() == Some(step + 1) || next is Failed
                &&& next.bootstrap_step() == Some(step + 1) ==> event is Done || event
                    is ArchiveOpened
                &&& self.phase == Phase::OpenArchive ==> (next == Phase::BuildTextures <==> event
                    is ArchiveOpened && self.config.level_index < event->num_levels)
                &&& self.phase == Phase::OpenArchive && event is ArchiveOpened
                    && self.config.level_index >= event->num_levels ==> next == Phase::Failed(
                    GameError::Config {
                        level_index: self.config.level_index,
                        num_levels: event->num_levels,
                    },
                )
                &&& self.after(event) == self.at(next)
            }),
    {
    }

    /// What the driver does to acquire the resources of a game, in this
    /// order.
    pub open spec fn bootstrap_actions(config: GameConfig) -> Seq<Action> {
        seq![
            Action::InitPlatform,
            Action::CreateWindow { width: config.width, height: config.height },
            Action::OpenArchive { wad_file: config.wad_file, metadata_file: config.metadata_file },
            Action::BuildTextures,
            Action::CreateSceneBuilder,
            Action::BuildLevel { level_index: config.level_index },
            Action::BuildScene,
            Action::CreatePlayer {
                fov_bits: config.fov_bits,
                widen_by: (ASPECT_WIDENING_NUMERATOR, ASPECT_WIDENING_DENOMINATOR),
            },
            Action::PlacePlayer,
            Action::CreateController,
            Action::CreateTextRenderer,
        ]
    }

    /// What the driver does between the bootstrap and the first frame.
    pub open spec fn prologue_actions() -> Seq<Action> {
        seq![
            Action::Assemble,
            Action::InsertOverlay {
                overlay: Overlay::ShortHelp,
                x: OVERLAY_X,
                y: OVERLAY_Y,
                z_order: OVERLAY_Z_ORDER,
            },
            Action::InsertOverlay {
                overlay: Overlay::LongHelp,
                x: OVERLAY_X,
                y: OVERLAY_Y,
                z_order: OVERLAY_Z_ORDER,
            },
            Action::SetOverlayVisible { overlay: Overlay::LongHelp, visible: false },
            Action::ReadClock { moment: Moment::LoopStart },
        ]
    }

    /// The game as it enters its first frame: the mouse is grabbed, the short
    /// help is on screen, the telemetry is empty, and the first frame is
    /// measured from the reading taken just before.
    pub open spec fn ready(config: GameConfig, world: World) -> GameState {
        GameState {
            phase: Phase::AcquireFrame,
            last_frame: world.loop_start,
            visibility: Visibility::initial(),
            ..GameState::initial(config)
        }
    }

    /// With a level index that names a level of the archive, and no failure,
    /// the bootstrap takes eleven steps in the one fixed order.
    pub proof fn law_bootstrap(config: GameConfig, world: World)
        requires
            config.level_index < world.num_levels,
        ensures
            GameState::initial(config).driven(world, 11) == GameState::initial(config).at(
                Phase::Assemble,
            ),
            GameState::initial(config).actions(world, 11) == GameState::bootstrap_actions(config),
    {
        let s0 = GameState::initial(config);
        let s1 = s0.at(Phase::CreateWindow);
        let s2 = s0.at(Phase::OpenArchive);
        let s3 = s0.at(Phase::BuildTextures);
        let s4 = s0.at(Phase::CreateSceneBuilder);
        let s5 = s0.at(Phase::BuildLevel);
        let s6 = s0.at(Phase::BuildScene);
        let s7 = s0.at(Phase::CreatePlayer);
        let s8 = s0.at(Phase::PlacePlayer);
        let s9 = s0.at(Phase::CreateController);
        let s10 = s0.at(Phase::CreateTextRenderer);
        let s11 = s0.at(Phase::Assemble);
        assert(s11.actions(world, 0) =~= Seq::<Action>::empty());
        s0.lemma_step(world, 11, s1);
        s1.lemma_step(world, 10, s2);
        s2.lemma_step(world, 9, s3);
        s3.lemma_step(world, 8, s4);
        s4.lemma_step(world, 7, s5);
        s5.lemma_step(world, 6, s6);
        s6.lemma_step(world, 5, s7);
        s7.lemma_step(world, 4, s8);
        s8.lemma_step(world, 3, s9);
        s9.lemma_step(world, 2, s10);
        s10.lemma_step(world, 1, s11);
        assert(s0.actions(world, 11) =~= GameState::bootstrap_actions(config));
    }

    /// A level index at or beyond the number of levels in the archive makes
    /// the bootstrap fail with a configuration error when the archive has
    /// been opened. By then the platform context and the window exist;
    /// nothing else has been asked for, and nothing more ever is.
    pub proof fn law_bad_level_index(config: GameConfig, world: World, steps: nat)
        requires
            config.level_index >= world.num_levels,
            steps >= 3,
        ensures
            GameState::initial(config).driven(world, steps).phase == Phase::Failed(
                GameError::Config { level_index: config.level_index, num_levels: world.num_levels },
            ),
            GameState::initial(config).actions(world, 3) == GameState::bootstrap_actions(
                config,
            ).take(3),
            GameState::initial(config).driven(world, steps).pending() == (Action::Fail {
                error: GameError::Config {
                    level_index: config.level_index,
                    num_levels: world.num_levels,
                },
            }),
    {
        let s0 = GameState::initial(config);
        let s1 = s0.at(Phase::CreateWindow);
        let s2 = s0.at(Phase::OpenArchive);
        let s3 = s0.at(
            Phase::Failed(
                GameError::Config { level_index: config.level_index, num_levels: world.num_levels },
            ),
        );
        assert(s3.actions(world, 0) =~= Seq::<Action>::empty());
        s0.lemma_step(world, 3, s1);
        s1.lemma_step(world, 2, s2);
        s2.lemma_step(world, 1, s3);
        assert(s0.actions(world, 3) =~= GameState::bootstrap_actions(config).take(3));
        s0.lemma_driven_add(world, 3, (steps - 3) as nat);
        s3.lemma_driven_ended(world, (steps - 3) as nat);
    }

    /// A game that has ended stays as it is, however long it is driven.
    pub proof fn lemma_driven_ended(self, world: World, steps: nat)
        requires
            self.phase.is_terminal(),
        ensures
            self.driven(world, steps) == self,
        decreases steps,
    {
        if steps > 0 {
            self.lemma_driven_ended(world, (steps - 1) as nat);
        }
    }

    /// The first failure ends the game. While the resources are acquired, and
    /// while the scene and the help texts are drawn, the caller receives the
    /// error, which tells the user what the failing collaborator said. A
    /// frame that cannot be acquired or presented leaves no way to go on.
    pub proof fn law_fail_fast(self, diagnostic: String)
        ensures
            self.phase.source() matches Some(source) ==> {
                &&& self.after(Event::Failed(diagnostic)).phase == Phase::Failed(
                    source.error(diagnostic),
                )
                &&& self.after(Event::Failed(diagnostic)).pending() == (Action::Fail {
                    error: source.error(diagnostic),
                })
                &&& source.error(diagnostic).spec_message() == diagnostic@
            },
            self.phase == Phase::AcquireFrame || self.phase == Phase::PresentFrame ==> {
                &&& self.after(Event::Failed(diagnostic)).phase == Phase::Aborted(
                    GameError::Frame(diagnostic),
                )
                &&& self.after(Event::Failed(diagnostic)).pending() == (Action::Abort {
                    error: GameError::Frame(diagnostic),
                })
            },
            self.phase.source() is None && self.phase != Phase::AcquireFrame && self.phase
                != Phase::PresentFrame ==> self.after(Event::Failed(diagnostic)) == self,
    {
    }

    /// Between the bootstrap and the first frame the help texts are
    /// registered, the long one is hidden, and the clock is read.
    pub proof fn law_prologue(self, world: World)
        requires
            self.phase == Phase::Assemble,
            self.visibility == (Visibility { short_help: false, long_help: false }),
        ensures
            self.driven(world, 5) == (GameState {
                phase: Phase::AcquireFrame,
                last_frame: world.loop_start,
                visibility: Visibility::initial(),
                ..self
            }),
            self.actions(world, 5) == GameState::prologue_actions(),
    {
        let s1 = self.at(Phase::InsertShortHelp);
        let s2 = GameState {
            phase: Phase::InsertLongHelp,
            visibility: Visibility { short_help: true, long_help: false },
            ..self
        };
        let s3 = GameState {
            phase: Phase::ConcealLongHelp,
            visibility: Visibility { short_help: true, long_help: true },
            ..self
        };
        let s4 = GameState { phase: Phase::StartClock, visibility: Visibility::initial(), ..self };
        let s5 = GameState { phase: Phase::AcquireFrame, last_frame: world.loop_start, ..s4 };
        assert(s5.actions(world, 0) =~= Seq::<Action>::empty());
        self.lemma_step(world, 5, s1);
        s1.lemma_step(world, 4, s2);
        s2.lemma_step(world, 3, s3);
        s3.lemma_step(world, 2, s4);
        s4.lemma_step(world, 1, s5);
        assert(self.actions(world, 5) =~= GameState::prologue_actions());
    }

    /// From its configuration to its first frame a game takes sixteen steps:
    /// the bootstrap, then the prologue.
    pub proof fn law_launch(config: GameConfig, world: World)
        requires
            config.level_index < world.num_levels,
        ensures
            GameState::initial(config).driven(world, 16) == GameState::ready(config, world),
            GameState::initial(config).actions(world, 16) == GameState::bootstrap_actions(config)
                + GameState::prologue_actions(),
    {
        let start = GameState::initial(config);
        GameState::law_bootstrap(config, world);
        start.at(Phase::Assemble).law_prologue(world);
        start.lemma_driven_add(world, 11, 5);
    }
}

} // verus!
