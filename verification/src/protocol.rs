//! What passes between the game and its driver.
//!
//! The game cannot do outside work itself: it cannot open a window, read a
//! file, poll a device or draw. It hands out an [`Action`] for each piece of
//! such work, and the driver reports the result as an [`Event`].

use std::path::PathBuf;
use vstd::prelude::*;
use crate::errors::GameError;
use crate::gesture::Gesture;
use crate::overlay::Overlay;
use crate::telemetry::{Delta, Report};

verus! {

/// The horizontal position at which the help texts are registered.
pub const OVERLAY_X: i32 = 0;

/// The vertical position at which the help texts are registered.
pub const OVERLAY_Y: i32 = 0;

/// The depth at which the help texts are registered.
pub const OVERLAY_Z_ORDER: u32 = 6;

/// The player's aspect ratio is the window's, widened by this factor: the
/// numerator of six fifths.
pub const ASPECT_WIDENING_NUMERATOR: u32 = 6;

/// The denominator of six fifths.
pub const ASPECT_WIDENING_DENOMINATOR: u32 = 5;

/// The result of the action that the game handed out last.
#[derive(Debug, PartialEq, Eq)]
pub enum Event {
    /// The action was carried out.
    Done,
    /// The action failed, with the collaborator's diagnostic.
    Failed(String),
    /// The archive was opened and holds this many levels.
    ArchiveOpened { num_levels: usize },
    /// The gesture was polled, and this is whether it registers.
    Polled(bool),
    /// The clock was read, in nanoseconds.
    Clock(u64),
}

/// Which moment a reading of the clock marks.
#[derive(Clone, Copy, Debug, PartialEq, Eq, Structural)]
pub enum Moment {
    /// The loop is about to start.
    LoopStart,
    /// A frame has been acquired.
    FrameStart,
    /// The update phase of a frame begins.
    UpdateStart,
    /// The update phase of a frame has ended.
    UpdateEnd,
}

/// One piece of outside work.
#[derive(Debug, PartialEq, Eq)]
pub enum Action {
    /// Acquire the platform context.
    InitPlatform,
    /// Create the window and its graphics context.
    CreateWindow { width: u32, height: u32 },
    /// Open the level archive and its metadata.
    OpenArchive { wad_file: PathBuf, metadata_file: PathBuf },
    /// Build the texture directory from the archive.
    BuildTextures,
    /// Create the scene builder, bound to the window and the shader assets.
    CreateSceneBuilder,
    /// Build the level at this index into the scene builder.
    BuildLevel { level_index: usize },
    /// Finish the scene builder into the scene.
    BuildScene,
    /// Create the player with this field of view, the window's aspect ratio
    /// times `widen_by.0 / widen_by.1`, and the default physics.
    CreatePlayer { fov_bits: u32, widen_by: (u32, u32) },
    /// Put the player at the level's start position.
    PlacePlayer,
    /// Create the input controller from the platform's event source.
    CreateController,
    /// Create the text renderer.
    CreateTextRenderer,
    /// Put the parts together: the game is ready to run.
    Assemble,
    /// Register a help text with the text renderer.
    InsertOverlay { overlay: Overlay, x: i32, y: i32, z_order: u32 },
    /// Show or hide a help text.
    SetOverlayVisible { overlay: Overlay, visible: bool },
    /// Read the clock.
    ReadClock { moment: Moment },
    /// Acquire the frame to draw into.
    AcquireFrame,
    /// Let the controller refresh its view of the devices.
    PollInput,
    /// Ask the controller whether the gesture registers.
    PollGesture { gesture: Gesture },
    /// Tell the controller whether pointer motion counts.
    SetMouseEnabled { enabled: bool },
    /// Tell the controller whether the cursor is confined to the window.
    SetCursorGrabbed { grabbed: bool },
    /// Advance the player by the frame's delta, from the controller and the
    /// level.
    UpdatePlayer { delta: Delta },
    /// Hand the player's view matrix to the scene.
    SetModelview,
    /// Hand the player's projection matrix to the scene.
    SetProjection,
    /// Advance the level by the frame's delta.
    UpdateLevel { delta: Delta },
    /// Draw the scene into the frame.
    RenderScene { delta: Delta },
    /// Draw the help texts into the frame, on top of the scene.
    RenderText,
    /// Log the performance report.
    EmitReport { report: Report },
    /// Present the frame.
    PresentFrame,
    /// The loop has ended: return.
    Exit,
    /// Give up and return the error. What has been acquired is released.
    Fail { error: GameError },
    /// Stop the process with the error: there is no way to go on.
    Abort { error: GameError },
}

impl Action {
    /// Whether the action is a reading of the clock.
    pub fn is_clock(&self) -> (clock: bool)
        ensures
            clock == (*self is ReadClock),
    {
        match self {
            Action::ReadClock { .. } => true,
            _ => false,
        }
    }

    /// Whether the action ends the game.
    pub fn is_final(&self) -> (last: bool)
        ensures
            last == (*self is Exit || *self is Fail || *self is Abort),
    {
        match self {
            Action::Exit => true,
            Action::Fail { .. } => true,
            Action::Abort { .. } => true,
            _ => false,
        }
    }
}

} // verus!
