//! The input controller: which setting the control adjusts, given the two
//! buttons, and when a change is worth writing and reporting.

use vstd::prelude::*;
use vstd::string::*;

use crate::{valid_levels, CHANNELS, LEVELS};

verus! {

/// Frames per second that one level adds to the frame rate; also the lowest
/// frame rate, that of level 0.
pub const FRAME_RATE_STEP: u32 = 10;

/// Milliseconds between two polls of the control and the buttons.
pub const POLL_INTERVAL_MS: u64 = 50;

/// The text of one decimal digit.
pub open spec fn digit_text(d: int) -> Seq<char>
    recommends
        0 <= d < 10,
{
    if d == 0 {
        "0"@
    } else if d == 1 {
        "1"@
    } else if d == 2 {
        "2"@
    } else if d == 3 {
        "3"@
    } else if d == 4 {
        "4"@
    } else if d == 5 {
        "5"@
    } else if d == 6 {
        "6"@
    } else if d == 7 {
        "7"@
    } else if d == 8 {
        "8"@
    } else {
        "9"@
    }
}

/// A number in decimal, without leading zeros.
pub open spec fn decimal_text(n: nat) -> Seq<char>
    decreases n,
{
    if n < 10 {
        digit_text(n as int)
    } else {
        decimal_text(n / 10) + digit_text((n % 10) as int)
    }
}

/// The frame rate that the control selects at `level`.
pub open spec fn frame_rate_of(level: int) -> int {
    level * FRAME_RATE_STEP + FRAME_RATE_STEP
}

/// What one poll adjusts.
#[derive(Clone, Copy, Debug, PartialEq, Eq)]
pub enum Mode {
    /// The frame rate.
    FrameRate,
    /// The level of the channel with this index.
    Channel(usize),
}

/// The channel that the first reading goes to: blue while button A is held,
/// else green while button B is held, else red.
pub open spec fn startup_channel(a_held: bool, b_held: bool) -> usize {
    if a_held {
        2
    } else if b_held {
        1
    } else {
        0
    }
}

/// What a poll adjusts: the frame rate with no button held, red with both,
/// green with B alone, blue with A alone.
pub open spec fn poll_mode(a_held: bool, b_held: bool) -> Mode {
    if !a_held && !b_held {
        Mode::FrameRate
    } else if a_held && b_held {
        Mode::Channel(0)
    } else if b_held {
        Mode::Channel(1)
    } else {
        Mode::Channel(2)
    }
}

/// The controller's record of what it last wrote.
#[derive(Clone, Copy, Debug)]
pub struct UiState {
    /// Last level written for each channel.
    pub levels: [u32; 3],
    /// Last frame rate written.
    pub frame_rate: u64,
}

/// What the controller asks of the program around it after a decision.
#[derive(Debug)]
pub enum UiAction {
    /// Nothing is written and nothing is reported.
    Idle,
    /// Write this frame rate to the shared state.
    SetFrameRate(u32),
    /// Write these levels to the shared state, then send the text to the
    /// diagnostic sink.
    SetLevels([u32; 3], String),
}

/// The input controller.
#[derive(Clone, Copy, Debug)]
pub struct Ui {
    /// What was last written.
    pub state: UiState,
}

fn digit_str(d: u64) -> (s: &'static str)
    requires
        d < 10,
    ensures
        s@ == digit_text(d as int),
{
    if d == 0 {
        "0"
    } else if d == 1 {
        "1"
    } else if d == 2 {
        "2"
    } else if d == 3 {
        "3"
    } else if d == 4 {
        "4"
    } else if d == 5 {
        "5"
    } else if d == 6 {
        "6"
    } else if d == 7 {
        "7"
    } else if d == 8 {
        "8"
    } else {
        "9"
    }
}

fn push_decimal(text: &mut String, n: u64)
    ensures
        final(text)@ == old(text)@ + decimal_text(n as nat),
    decreases n,
{
    let ghost before = text@;
    if n >= 10 {
        push_decimal(text, n / 10);
    }
    text.append(digit_str(n % 10));
    assert(text@ =~= before + decimal_text(n as nat));
}

impl UiState {
    /// Levels are valid and the frame rate is positive.
    pub open spec fn wf(&self) -> bool {
        &&& valid_levels(self.levels)
        &&& self.frame_rate > 0
    }

    /// The report of this state: an empty line, one line per channel with
    /// its name and level, and a line with the frame rate.
    pub open spec fn show_text(&self) -> Seq<char> {
        "\n"@ + "red: "@ + decimal_text(self.levels[0] as nat) + "\n"@ + "green: "@ + decimal_text(
            self.levels[1] as nat,
        ) + "\n"@ + "blue: "@ + decimal_text(self.levels[2] as nat) + "\n"@ + "frame rate: "@
            + decimal_text(self.frame_rate as nat) + "\n"@
    }

    /// Renders the state as text for the diagnostic sink.
    pub fn show(&self) -> (text: String)
        ensures
            text@ == self.show_text(),
    {
        let mut text = String::new();
        text.append("\n");
        text.append("red: ");
        push_decimal(&mut text, self.levels[0] as u64);
        text.append("\n");
        text.append("green: ");
        push_decimal(&mut text, self.levels[1] as u64);
        text.append("\n");
        text.append("blue: ");
        push_decimal(&mut text, self.levels[2] as u64);
        text.append("\n");
        text.append("frame rate: ");
        push_decimal(&mut text, self.frame_rate);
        text.append("\n");
        assert(text@ =~= self.show_text());
        text
    }
}

impl Default for UiState {
    /// Every channel at the top level, at 100 frames per second.
    fn default() -> (state: Self)
        ensures
            state.levels@ == seq![15u32, 15u32, 15u32],
            state.frame_rate == 100,
            state.wf(),
    {
        Self { levels: [LEVELS - 1, LEVELS - 1, LEVELS - 1], frame_rate: 100 }
    }
}

impl UiAction {
    /// Whether the action writes `levels` and reports `state`.
    pub open spec fn sets_levels_of(&self, state: UiState) -> bool {
        self matches UiAction::SetLevels(levels, report) && levels == state.levels && report@
            == state.show_text()
    }
}

impl Ui {
    /// Whether `post` and `action` are what an update of `channel` to
    /// `level` makes of `pre`: nothing at all where the level is the one
    /// recorded, else the new level recorded, written and reported.
    pub open spec fn updated(pre: Ui, post: Ui, channel: int, level: u32, action: UiAction) -> bool {
        if level == pre.state.levels[channel] {
            &&& post == pre
            &&& action is Idle
        } else {
            &&& post.state.levels@ == pre.state.levels@.update(channel, level)
            &&& post.state.frame_rate == pre.state.frame_rate
            &&& action.sets_levels_of(post.state)
        }
    }

    /// A controller that has written nothing yet.
    pub fn new() -> (ui: Self)
        ensures
            ui.state.levels@ == seq![15u32, 15u32, 15u32],
            ui.state.frame_rate == 100,
            ui.state.wf(),
    {
        Self { state: UiState::default() }
    }

    /// The channel that the first reading goes to.
    pub fn startup_channel(a_held: bool, b_held: bool) -> (channel: usize)
        ensures
            channel == startup_channel(a_held, b_held),
            channel < CHANNELS,
    {
        if a_held {
            2
        } else if b_held {
            1
        } else {
            0
        }
    }

    /// What a poll adjusts while the buttons are as given.
    pub fn mode(a_held: bool, b_held: bool) -> (mode: Mode)
        ensures
            mode == poll_mode(a_held, b_held),
    {
        if !a_held && !b_held {
            Mode::FrameRate
        } else if a_held && b_held {
            Mode::Channel(0)
        } else if b_held {
            Mode::Channel(1)
        } else {
            Mode::Channel(2)
        }
    }

    /// Records `level` for channel `rgb_color` if it differs from the level
    /// recorded, and then asks for the write and the report. An unchanged
    /// level changes nothing and asks for nothing.
    pub fn update_led_state(&mut self, rgb_color: usize, level: u32) -> (action: UiAction)
        requires
            rgb_color < CHANNELS,
        ensures
            Ui::updated(*old(self), *final(self), rgb_color as int, level, action),
            old(self).state.wf() && level < LEVELS ==> final(self).state.wf(),
    {
        if level != self.state.levels[rgb_color] {
            self.state.levels[rgb_color] = level;
            let report = self.state.show();
            UiAction::SetLevels(self.state.levels, report)
        } else {
            UiAction::Idle
        }
    }

    /// The startup step: the first reading goes to the startup channel and
    /// is written and reported whether or not it changes anything.
    pub fn start(&mut self, a_held: bool, b_held: bool, level: u32) -> (action: UiAction)
        ensures
            final(self).state.levels@ == old(self).state.levels@.update(
                startup_channel(a_held, b_held) as int,
                level,
            ),
            final(self).state.frame_rate == old(self).state.frame_rate,
            action.sets_levels_of(final(self).state),
            old(self).state.wf() && level < LEVELS ==> final(self).state.wf(),
    {
        let rgb_color = Self::startup_channel(a_held, b_held);
        self.state.levels[rgb_color] = level;
        let report = self.state.show();
        UiAction::SetLevels(self.state.levels, report)
    }

    /// One poll: with no button held the frame rate follows the level and
    /// is written every time; otherwise the channel that the buttons select
    /// is updated.
    pub fn poll(&mut self, a_held: bool, b_held: bool, level: u32) -> (action: UiAction)
        requires
            level < LEVELS,
        ensures
            match poll_mode(a_held, b_held) {
                Mode::FrameRate => {
                    &&& final(self).state.levels == old(self).state.levels
                    &&& final(self).state.frame_rate == frame_rate_of(level as int)
                    &&& action matches UiAction::SetFrameRate(frame_rate)
                    &&& frame_rate == frame_rate_of(level as int)
                },
                Mode::Channel(channel) => Ui::updated(
                    *old(self),
                    *final(self),
                    channel as int,
                    level,
                    action,
                ),
            },
            old(self).state.wf() ==> final(self).state.wf(),
    {
        match Self::mode(a_held, b_held) {
            Mode::FrameRate => {
                let frame_rate: u32 = level * FRAME_RATE_STEP + FRAME_RATE_STEP;
                self.state.frame_rate = frame_rate as u64;
                UiAction::SetFrameRate(frame_rate)
            },
            Mode::Channel(channel) => self.update_led_state(channel, level),
        }
    }
}

/// For each of the four ways the two buttons can stand, a poll adjusts
/// exactly one thing, and each thing belongs to exactly one of them.
pub proof fn lemma_mode_exhaustive(a_held: bool, b_held: bool)
    ensures
        poll_mode(a_held, b_held) == Mode::FrameRate <==> !a_held && !b_held,
        poll_mode(a_held, b_held) == Mode::Channel(0) <==> a_held && b_held,
        poll_mode(a_held, b_held) == Mode::Channel(1) <==> !a_held && b_held,
        poll_mode(a_held, b_held) == Mode::Channel(2) <==> a_held && !b_held,
{
}

/// While one button alone is held, polls adjust the channel that the
/// startup step chose.
pub proof fn lemma_single_button_keeps_target(a_held: bool, b_held: bool)
    requires
        a_held != b_held,
    ensures
        poll_mode(a_held, b_held) == Mode::Channel(startup_channel(a_held, b_held)),
{
}

/// An update to the level already recorded leaves the controller as it was
/// and asks for no write and no report, and nothing else does.
pub proof fn lemma_update_suppressed(pre: Ui, post: Ui, channel: int, level: u32, action: UiAction)
    requires
        0 <= channel < CHANNELS,
        Ui::updated(pre, post, channel, level, action),
    ensures
        action is Idle <==> level == pre.state.levels[channel],
        action is Idle ==> post == pre,
{
}

/// The frame rate that a valid level selects lies between 10 and 160.
pub proof fn lemma_frame_rate_range(level: int)
    requires
        0 <= level < LEVELS,
    ensures
        10 <= frame_rate_of(level) <= 160,
{
}

} // verus!
