//! The modulation driver: how long each channel is held on and off within
//! one frame.

use vstd::prelude::*;

use crate::{valid_levels, CHANNELS, LEVELS};

verus! {

/// Microseconds in one second.
pub const MICROS_PER_SECOND: u64 = 1_000_000;

/// Ticks in one frame: every channel in turn gets `LEVELS` ticks.
pub const TICKS_PER_FRAME: u64 = 48;

/// Longest tick there is, that of one frame per second.
pub const MAX_TICK_TIME: u64 = 20_833;

/// Length of one tick in microseconds at `frame_rate` frames per second,
/// rounded down: a second shared out over `frame_rate` frames of
/// `CHANNELS` slots of `LEVELS` ticks each.
pub open spec fn tick_time_of(frame_rate: int) -> int
    recommends
        frame_rate > 0,
{
    MICROS_PER_SECOND as int / (CHANNELS * frame_rate * LEVELS)
}

/// What the driver does with one channel during its share of a frame.
#[derive(Clone, Copy, Debug, PartialEq, Eq)]
pub struct Slot {
    /// Whether the channel's line is driven high at the start of the slot
    /// and low again once `on_time` has passed.
    pub lit: bool,
    /// Microseconds to hold the line high.
    pub on_time: u64,
    /// Microseconds to hold the line low afterwards.
    pub off_time: u64,
}

impl Slot {
    /// Length of the whole slot in microseconds.
    pub open spec fn duration(&self) -> int {
        self.on_time + self.off_time
    }
}

/// The driver's own copy of the settings, taken once per frame.
#[derive(Clone, Copy, Debug)]
pub struct Rgb {
    /// Level of each channel during the current frame.
    pub levels: [u32; 3],
    /// Length of one tick during the current frame, in microseconds.
    pub tick_time: u64,
}

impl Rgb {
    /// Levels are valid and the tick is no longer than the longest there is.
    pub open spec fn wf(&self) -> bool {
        &&& valid_levels(self.levels)
        &&& self.tick_time <= MAX_TICK_TIME
    }

    /// The slot of channel `led` under the current settings.
    pub open spec fn slot_of(&self, led: int) -> Slot {
        Slot {
            lit: self.levels[led] > 0,
            on_time: (self.levels[led] * self.tick_time) as u64,
            off_time: ((LEVELS - self.levels[led]) * self.tick_time) as u64,
        }
    }

    /// Length of one full frame, red then green then blue, in microseconds.
    pub open spec fn frame_period(&self) -> int {
        self.slot_of(0).duration() + self.slot_of(1).duration() + self.slot_of(2).duration()
    }

    /// Length of one tick, in microseconds, at `frame_rate` frames per second.
    pub fn frame_tick_time(frame_rate: u64) -> (tick_time: u64)
        requires
            frame_rate > 0,
        ensures
            tick_time == tick_time_of(frame_rate as int),
            tick_time <= MAX_TICK_TIME,
    {
        if frame_rate > MAX_TICK_TIME {
            proof {
                lemma_fast_frames_have_no_tick(frame_rate as int);
            }
            0
        } else {
            let per_level: u64 = 3 * frame_rate;
            let ticks_per_second: u64 = per_level * (LEVELS as u64);
            proof {
                assert(ticks_per_second == CHANNELS * frame_rate * LEVELS);
                vstd::arithmetic::div_mod::lemma_div_is_ordered_by_denominator(
                    MICROS_PER_SECOND as int,
                    TICKS_PER_FRAME as int,
                    ticks_per_second as int,
                );
            }
            MICROS_PER_SECOND / ticks_per_second
        }
    }

    /// A driver with every channel dark, timed for `frame_rate` frames per
    /// second.
    pub fn new(frame_rate: u64) -> (rgb: Self)
        requires
            frame_rate > 0,
        ensures
            rgb.levels@ == seq![0u32, 0u32, 0u32],
            rgb.tick_time == tick_time_of(frame_rate as int),
            rgb.wf(),
    {
        let tick_time = Self::frame_tick_time(frame_rate);
        Self { levels: [0, 0, 0], tick_time }
    }

    /// Takes over the settings for the next frame. The driver calls this
    /// between frames only, so that a frame is never cut short by a change.
    pub fn load(&mut self, levels: [u32; 3], frame_rate: u32)
        requires
            valid_levels(levels),
            frame_rate > 0,
        ensures
            final(self).levels == levels,
            final(self).tick_time == tick_time_of(frame_rate as int),
            final(self).wf(),
    {
        self.levels = levels;
        self.tick_time = Self::frame_tick_time(frame_rate as u64);
    }

    /// The slot of channel `led`: the line is driven high only for a level
    /// above zero, for one tick per level, and rests low for the remaining
    /// ticks of the channel's `LEVELS`.
    pub fn step(&self, led: usize) -> (slot: Slot)
        requires
            self.wf(),
            led < CHANNELS,
        ensures
            slot == self.slot_of(led as int),
            slot.lit == (self.levels[led as int] > 0),
            slot.on_time == self.levels[led as int] * self.tick_time,
            slot.off_time == (LEVELS - self.levels[led as int]) * self.tick_time,
    {
        let level: u32 = self.levels[led];
        proof {
            lemma_slot_times_fit(level as int, self.tick_time as int);
        }
        let on_time: u64 = (level as u64) * self.tick_time;
        let rest: u32 = LEVELS - level;
        let off_time: u64 = (rest as u64) * self.tick_time;
        Slot { lit: level > 0, on_time, off_time }
    }
}

/// At more than `MAX_TICK_TIME` frames per second a tick is shorter than a
/// microsecond.
pub proof fn lemma_fast_frames_have_no_tick(frame_rate: int)
    requires
        frame_rate > MAX_TICK_TIME,
    ensures
        tick_time_of(frame_rate) == 0,
{
    let d = CHANNELS * frame_rate * LEVELS;
    assert(d == 48 * frame_rate);
    assert(d > MICROS_PER_SECOND);
    vstd::arithmetic::div_mod::lemma_basic_div(MICROS_PER_SECOND as int, d);
}

/// With a valid level and tick, both hold times of a slot are at most
/// `LEVELS` ticks and add up to exactly that.
pub proof fn lemma_slot_times_fit(level: int, tick_time: int)
    requires
        0 <= level < LEVELS,
        0 <= tick_time <= MAX_TICK_TIME,
    ensures
        0 <= level * tick_time <= LEVELS * MAX_TICK_TIME,
        0 <= (LEVELS - level) * tick_time <= LEVELS * MAX_TICK_TIME,
        level * tick_time + (LEVELS - level) * tick_time == LEVELS * tick_time,
{
    assert(0 <= level * tick_time <= LEVELS * MAX_TICK_TIME) by (nonlinear_arith)
        requires
            0 <= level < LEVELS,
            0 <= tick_time <= MAX_TICK_TIME,
    ;
    assert(0 <= (LEVELS - level) * tick_time <= LEVELS * MAX_TICK_TIME) by (nonlinear_arith)
        requires
            0 <= level < LEVELS,
            0 <= tick_time <= MAX_TICK_TIME,
    ;
    assert(level * tick_time + (LEVELS - level) * tick_time == LEVELS * tick_time)
        by (nonlinear_arith);
}

/// Every channel's slot lasts `LEVELS` ticks whatever its level, of which
/// the line is high for `level` sixteenths and low for the rest.
pub proof fn lemma_duty_cycle(rgb: Rgb, led: int)
    requires
        rgb.wf(),
        0 <= led < CHANNELS,
    ensures
        rgb.slot_of(led).duration() == LEVELS * rgb.tick_time,
        LEVELS * rgb.slot_of(led).on_time == rgb.levels[led] * rgb.slot_of(led).duration(),
        LEVELS * rgb.slot_of(led).off_time == (LEVELS - rgb.levels[led]) * rgb.slot_of(
            led,
        ).duration(),
{
    let level = rgb.levels[led] as int;
    let tick = rgb.tick_time as int;
    lemma_slot_times_fit(level, tick);
    assert(LEVELS * (level * tick) == level * (LEVELS * tick)) by (nonlinear_arith);
    assert(LEVELS * ((LEVELS - level) * tick) == (LEVELS - level) * (LEVELS * tick))
        by (nonlinear_arith);
}

/// One full frame lasts `TICKS_PER_FRAME` ticks whatever the levels are.
pub proof fn lemma_frame_period_ignores_levels(rgb: Rgb)
    requires
        rgb.wf(),
    ensures
        rgb.frame_period() == TICKS_PER_FRAME * rgb.tick_time,
{
    lemma_duty_cycle(rgb, 0);
    lemma_duty_cycle(rgb, 1);
    lemma_duty_cycle(rgb, 2);
}

/// A frame at `frame_rate` frames per second lasts `MICROS_PER_SECOND /
/// frame_rate` microseconds, rounded down, less what rounding the tick
/// down loses: under one microsecond for each of the `TICKS_PER_FRAME` ticks.
pub proof fn lemma_frame_period(rgb: Rgb, frame_rate: int)
    requires
        rgb.wf(),
        frame_rate > 0,
        rgb.tick_time == tick_time_of(frame_rate),
    ensures
        rgb.frame_period() <= MICROS_PER_SECOND as int / frame_rate,
        MICROS_PER_SECOND as int / frame_rate - rgb.frame_period() < TICKS_PER_FRAME,
{
    lemma_frame_period_ignores_levels(rgb);
    let n = MICROS_PER_SECOND as int;
    let d = CHANNELS * frame_rate * LEVELS;
    assert(d == 48 * frame_rate);
    let t = n / d;
    let q = n / frame_rate;
    vstd::arithmetic::div_mod::lemma_fundamental_div_mod(n, d);
    vstd::arithmetic::div_mod::lemma_mod_bound(n, d);
    vstd::arithmetic::div_mod::lemma_fundamental_div_mod(n, frame_rate);
    vstd::arithmetic::div_mod::lemma_mod_bound(n, frame_rate);
    assert(n == d * t + n % d);
    assert(n == frame_rate * q + n % frame_rate);
    assert(48 * t <= q) by (nonlinear_arith)
        requires
            frame_rate > 0,
            d == 48 * frame_rate,
            n == d * t + n % d,
            0 <= n % d,
            n == frame_rate * q + n % frame_rate,
            n % frame_rate < frame_rate,
    ;
    assert(q < 48 * t + 48) by (nonlinear_arith)
        requires
            frame_rate > 0,
            d == 48 * frame_rate,
            n == d * t + n % d,
            n % d < d,
            n == frame_rate * q + n % frame_rate,
            0 <= n % frame_rate,
    ;
}

} // verus!
