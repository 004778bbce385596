//! Brightness and refresh-rate logic for a three-channel (red, green, blue)
//! indicator light driven by software pulse-width modulation.
//!
//! The crate holds the decisions of the two control loops: the mapping from a
//! raw analog reading to a brightness level, the timing of one modulation
//! frame, and the rules by which two buttons select what the control adjusts.
//! Pins, timers and the analog converter belong to the program around it.

use vstd::prelude::*;

pub mod knob;
pub mod rgb;
pub mod shared;
pub mod ui;

pub use knob::Knob;
pub use rgb::{Rgb, Slot};
pub use shared::SharedState;
pub use ui::{Mode, Ui, UiAction, UiState};

verus! {

/// Number of brightness steps of one channel; a level lies in `0..LEVELS`.
pub const LEVELS: u32 = 16;

/// Number of channels: red, green, blue, in that order.
pub const CHANNELS: usize = 3;

/// Whether every entry of `levels` is a valid brightness level.
pub open spec fn valid_levels(levels: [u32; 3]) -> bool {
    &&& levels[0] < LEVELS
    &&& levels[1] < LEVELS
    &&& levels[2] < LEVELS
}

} // verus!
