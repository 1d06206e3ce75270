//! A screen-flow controller for a tick-driven application.
//!
//! The controller tracks which of three screens is showing (title, loading,
//! game), counts the ticks spent loading, and moves between screens on button
//! edges or elapsed ticks. Each tick takes the buttons' signals as plain
//! booleans and hands back the text to draw, so that a host does the polling
//! and the drawing.

pub mod input;
pub mod display;
pub mod state;
pub mod laws;

pub use crate::display::TextIntent;
pub use crate::input::{ButtonEvents, ButtonLevels};
pub use crate::state::{state_of_game, GameState, Screen};
