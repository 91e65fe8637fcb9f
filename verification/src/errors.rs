//! The ways in which a game fails, and what it tells the user.

use vstd::prelude::*;
use vstd::string::StringExecFns;

verus! {

/// Why a game could not be started or could not go on.
///
/// A diagnostic is the text that the failing collaborator gave; it is kept as
/// it came.
#[derive(Debug, PartialEq, Eq)]
pub enum GameError {
    /// The platform context or its event source could not be had.
    Platform(String),
    /// The window, the scene or the text renderer failed.
    Graphics(String),
    /// The level archive could not be opened or read.
    Archive(String),
    /// The texture directory could not be built.
    Texture(String),
    /// The level could not be built.
    LevelBuild(String),
    /// The configured level index names no level of the archive.
    Config { level_index: usize, num_levels: usize },
    /// A frame could not be acquired or presented.
    Frame(String),
}

/// The collaborator that a diagnostic comes from.
#[derive(Clone, Copy, Debug, PartialEq, Eq, Structural)]
pub enum Source {
    Platform,
    Graphics,
    Archive,
    Texture,
    LevelBuild,
    Frame,
}

impl Source {
    /// The error that stands for a failure of this collaborator.
    pub open spec fn error(self, diagnostic: String) -> GameError {
        match self {
            Source::Platform => GameError::Platform(diagnostic),
            Source::Graphics => GameError::Graphics(diagnostic),
            Source::Archive => GameError::Archive(diagnostic),
            Source::Texture => GameError::Texture(diagnostic),
            Source::LevelBuild => GameError::LevelBuild(diagnostic),
            Source::Frame => GameError::Frame(diagnostic),
        }
    }

    /// The error that stands for a failure of this collaborator, with the
    /// diagnostic that it gave.
    pub fn into_error(self, diagnostic: String) -> (error: GameError)
        ensures
            error == self.error(diagnostic),
    {
        match self {
            Source::Platform => GameError::Platform(diagnostic),
            Source::Graphics => GameError::Graphics(diagnostic),
            Source::Archive => GameError::Archive(diagnostic),
            Source::Texture => GameError::Texture(diagnostic),
            Source::LevelBuild => GameError::LevelBuild(diagnostic),
            Source::Frame => GameError::Frame(diagnostic),
        }
    }
}

/// The character of a decimal digit.
pub open spec fn digit(d: nat) -> char {
    if d == 0 {
        '0'
    } else if d == 1 {
        '1'
    } else if d == 2 {
        '2'
    } else if d == 3 {
        '3'
    } else if d == 4 {
        '4'
    } else if d == 5 {
        '5'
    } else if d == 6 {
        '6'
    } else if d == 7 {
        '7'
    } else if d == 8 {
        '8'
    } else {
        '9'
    }
}

/// A number in decimal notation, without leading zeros.
pub open spec fn decimal(n: nat) -> Seq<char>
    decreases n,
{
    if n < 10 {
        seq![digit(n)]
    } else {
        decimal(n / 10).push(digit(n % 10))
    }
}

/// The upper end of the range of level indices that the message of a
/// configuration error names: one below the number of levels, wrapping round
/// for an archive without levels.
pub open spec fn last_level(num_levels: usize) -> usize {
    if num_levels == 0 {
        usize::MAX
    } else {
        (num_levels - 1) as usize
    }
}

/// The message of a configuration error.
pub open spec fn config_message(level_index: usize, num_levels: usize) -> Seq<char> {
    "Level index was "@ + decimal(level_index as nat) + ", must be between 0.."@ + decimal(
        last_level(num_levels) as nat,
    ) + ", run with --list-levels to see names."@
}

fn digit_text(d: usize) -> (text: &'static str)
    requires
        d < 10,
    ensures
        text@ == seq![digit(d as nat)],
{
    proof {
        reveal_strlit("0");
        reveal_strlit("1");
        reveal_strlit("2");
        reveal_strlit("3");
        reveal_strlit("4");
        reveal_strlit("5");
        reveal_strlit("6");
        reveal_strlit("7");
        reveal_strlit("8");
        reveal_strlit("9");
    }
    let text = if d == 0 {
        "0"
    } else if d == 1 {
        "1"
    } else if d == 2 {
        "2"
    } else if d == 3 {
        "3"
    } else if d == 4 {
        "4"
    } else if d == 5 {
        "5"
    } else if d == 6 {
        "6"
    } else if d == 7 {
        "7"
    } else if d == 8 {
        "8"
    } else {
        "9"
    };
    assert(text@ =~= seq![digit(d as nat)]);
    text
}

/// Appends a number in decimal notation to a text.
pub fn append_decimal(out: &mut String, n: usize)
    ensures
        final(out)@ == old(out)@ + decimal(n as nat),
    decreases n,
{
    if n >= 10 {
        append_decimal(out, n / 10);
    }
    out.append(digit_text(n % 10));
    assert(out@ =~= old(out)@ + decimal(n as nat));
}

impl Clone for GameError {
    fn clone(&self) -> (copy: GameError)
        ensures
            copy == *self,
    {
        match self {
            GameError::Platform(diagnostic) => GameError::Platform(diagnostic.clone()),
            GameError::Graphics(diagnostic) => GameError::Graphics(diagnostic.clone()),
            GameError::Archive(diagnostic) => GameError::Archive(diagnostic.clone()),
            GameError::Texture(diagnostic) => GameError::Texture(diagnostic.clone()),
            GameError::LevelBuild(diagnostic) => GameError::LevelBuild(diagnostic.clone()),
            GameError::Config { level_index, num_levels } => GameError::Config {
                level_index: *level_index,
                num_levels: *num_levels,
            },
            GameError::Frame(diagnostic) => GameError::Frame(diagnostic.clone()),
        }
    }
}

impl GameError {
    /// What the user is told: for a configuration error the level index and
    /// the range it must lie in, for every other error the collaborator's
    /// diagnostic.
    pub open spec fn spec_message(self) -> Seq<char> {
        match self {
            GameError::Platform(diagnostic) => diagnostic@,
            GameError::Graphics(diagnostic) => diagnostic@,
            GameError::Archive(diagnostic) => diagnostic@,
            GameError::Texture(diagnostic) => diagnostic@,
            GameError::LevelBuild(diagnostic) => diagnostic@,
            GameError::Config { level_index, num_levels } => config_message(
                level_index,
                num_levels,
            ),
            GameError::Frame(diagnostic) => diagnostic@,
        }
    }

    /// Whether the user can correct the error by changing the configuration.
    pub fn is_config(&self) -> (config: bool)
        ensures
            config == (*self is Config),
    {
        match self {
            GameError::Config { .. } => true,
            _ => false,
        }
    }

    /// What the user is told.
    pub fn message(&self) -> (text: String)
        ensures
            text@ == self.spec_message(),
    {
        match self {
            GameError::Platform(diagnostic) => diagnostic.clone(),
            GameError::Graphics(diagnostic) => diagnostic.clone(),
            GameError::Archive(diagnostic) => diagnostic.clone(),
            GameError::Texture(diagnostic) => diagnostic.clone(),
            GameError::LevelBuild(diagnostic) => diagnostic.clone(),
            GameError::Frame(diagnostic) => diagnostic.clone(),
            GameError::Config { level_index, num_levels } => {
                let last: usize = if *num_levels == 0 {
                    usize::MAX
                } else {
                    *num_levels - 1
                };
                let mut text = String::from_str("Level index was ");
                append_decimal(&mut text, *level_index);
                text.append(", must be between 0..");
                append_decimal(&mut text, last);
                text.append(", run with --list-levels to see names.");
                text
            },
        }
    }
}

} // verus!
