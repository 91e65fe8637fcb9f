//! What a game is started with.

use std::path::PathBuf;
use vstd::prelude::*;

verus! {

/// `std::path::PathBuf`, an owned file path. The game carries paths from its
/// configuration to the action that opens the archive and never looks inside
/// one.
#[verifier::external_type_specification]
#[verifier::external_body]
pub struct ExPathBuf(PathBuf);

/// `PathBuf::clone`: the copy is the same path.
pub assume_specification[ <PathBuf as Clone>::clone ](path: &PathBuf) -> (copy: PathBuf)
    ensures
        copy == *path,
;

/// The configuration of one game. It is read once, while the game acquires its
/// resources.
#[derive(Debug, PartialEq, Eq)]
pub struct GameConfig {
    /// The path of the level archive.
    pub wad_file: PathBuf,
    /// The path of the archive's metadata.
    pub metadata_file: PathBuf,
    /// The level to load. It must lie below the number of levels in the
    /// archive.
    pub level_index: usize,
    /// The field of view, as the bit pattern of a single-precision number. It
    /// is handed on to the player as it is.
    pub fov_bits: u32,
    /// The width of the window.
    pub width: u32,
    /// The height of the window.
    pub height: u32,
}

impl Clone for GameConfig {
    fn clone(&self) -> (copy: GameConfig)
        ensures
            copy == *self,
    {
        GameConfig {
            wad_file: self.wad_file.clone(),
            metadata_file: self.metadata_file.clone(),
            level_index: self.level_index,
            fov_bits: self.fov_bits,
            width: self.width,
            height: self.height,
        }
    }
}

impl GameConfig {
    /// Whether the configured level is one of an archive's `num_levels`
    /// levels.
    pub open spec fn names_level_of(self, num_levels: usize) -> bool {
        self.level_index < num_levels
    }

    /// Whether the configured level is one of an archive's `num_levels`
    /// levels.
    pub fn has_level(&self, num_levels: usize) -> (valid: bool)
        ensures
            valid == self.names_level_of(num_levels),
    {
        self.level_index < num_levels
    }
}

} // verus!
