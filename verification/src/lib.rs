//! The decision core of a first-person level viewer.
//!
//! The viewer acquires its resources in a fixed order and then enters a frame
//! loop. Everything it decides on the way (which resource comes next, when a
//! configuration is refused, how long a frame lasted, which gesture wins, which
//! help text is on screen, when a performance report is due) is decided here,
//! as a state machine: [`game::Game`] hands out one [`protocol::Action`] at a
//! time and takes the [`protocol::Event`] that reports how it went.
//!
//! - [`config`] and [`errors`]: what a game is started with and how it fails.
//! - [`protocol`]: the actions and events.
//! - [`gesture`], [`overlay`], [`telemetry`]: the parts that decide on their
//!   own, with their laws.
//! - [`machine`]: the states of a game and its transitions, event by event.
//! - [`game`]: the executable game, and the clock it reads.
//! - [`driver`], [`bootstrap`], [`frame`]: what the transitions amount to over
//!   a whole bootstrap and a whole frame, proved against the machine.

pub mod bootstrap;
mod clock;
pub mod config;
pub mod driver;
pub mod errors;
pub mod frame;
pub mod game;
pub mod gesture;
pub mod machine;
pub mod overlay;
pub mod protocol;
pub mod telemetry;
