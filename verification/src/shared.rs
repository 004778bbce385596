//! The settings that the input controller hands to the driver.

use vstd::prelude::*;

verus! {

/// Frame rate that the shared state starts with.
pub const INITIAL_FRAME_RATE: u32 = 10;

/// The two shared settings. Each is read and written on its own: no
/// operation touches both, so a reader may pair new levels with an older
/// frame rate, or the reverse.
#[derive(Clone, Copy, Debug)]
pub struct SharedState {
    /// Level of each channel.
    pub levels: [u32; 3],
    /// Frames per second.
    pub frame_rate: u32,
}

impl SharedState {
    /// The state before the controller's first write: every channel dark,
    /// at `INITIAL_FRAME_RATE` frames per second.
    pub fn new() -> (shared: Self)
        ensures
            shared.levels@ == seq![0u32, 0u32, 0u32],
            shared.frame_rate == INITIAL_FRAME_RATE,
    {
        Self { levels: [0, 0, 0], frame_rate: INITIAL_FRAME_RATE }
    }

    /// A copy of the levels.
    pub fn get_rgb_levels(&self) -> (levels: [u32; 3])
        ensures
            levels == self.levels,
    {
        self.levels
    }

    /// Replaces the levels and leaves the frame rate alone.
    pub fn set_rgb_levels(&mut self, levels: [u32; 3])
        ensures
            final(self).levels == levels,
            final(self).frame_rate == old(self).frame_rate,
    {
        self.levels = levels;
    }

    /// A copy of the frame rate.
    pub fn get_frame_rate(&self) -> (frame_rate: u32)
        ensures
            frame_rate == self.frame_rate,
    {
        self.frame_rate
    }

    /// Replaces the frame rate and leaves the levels alone.
    pub fn set_frame_rate(&mut self, frame_rate: u32)
        ensures
            final(self).frame_rate == frame_rate,
            final(self).levels == old(self).levels,
    {
        self.frame_rate = frame_rate;
    }
}

} // verus!
