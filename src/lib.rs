//! Input handling and the main-loop state machine of a terminal résumé viewer.
//!
//! The library decides; the program around it performs the terminal work.
//! Key presses are translated into a small closed set of navigation events,
//! and an explicit state machine decides, for each thing that happens,
//! whether to repaint, to dispatch an event to the application state, or to
//! restore the terminal and terminate with a status.
use vstd::prelude::*;

pub mod event_loop;
pub mod input;

verus! {

/// Width in character cells of the fixed viewport the résumé is drawn into.
pub const VIEWPORT_WIDTH: u16 = 120;

/// Height in character cells of the fixed viewport the résumé is drawn into.
pub const VIEWPORT_HEIGHT: u16 = 40;

} // verus!
