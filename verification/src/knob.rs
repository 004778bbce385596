//! The analog control: from a raw converter code to a brightness level.

use vstd::prelude::*;

use crate::LEVELS;

verus! {

/// Largest raw code that the mapping distinguishes; larger codes count as this one.
pub const RAW_MAX: i16 = 0x7fff;

/// Raw codes per unit of the normalised reading.
pub const RAW_SCALE: u32 = 10_000;

/// Largest raw code that still maps to level 0.
pub const DEAD_ZONE_LOW: i16 = 1666;

/// Smallest raw code that already maps to the top level.
pub const DEAD_ZONE_HIGH: i16 = 9445;

/// A raw code brought into `0..=RAW_MAX`.
pub open spec fn clamp_raw(raw: int) -> int {
    if raw < 0 {
        0
    } else if raw > RAW_MAX {
        RAW_MAX as int
    } else {
        raw
    }
}

/// The level of a raw code: with `scaled = clamp_raw(raw) / RAW_SCALE` as a
/// real number, the floor of `(LEVELS + 2) * scaled - 2` held within
/// `0..=LEVELS - 1`. Both bounds are whole numbers, so the floor is taken
/// first, as one integer division that rounds down.
pub open spec fn level_of_raw(raw: int) -> int {
    let v = ((LEVELS + 2) * clamp_raw(raw) - 2 * RAW_SCALE) / (RAW_SCALE as int);
    if v < 0 {
        0
    } else if v > LEVELS - 1 {
        LEVELS - 1
    } else {
        v
    }
}

/// The potentiometer's transfer curve.
pub struct Knob {}

impl Knob {
    /// Maps one raw reading of the converter to a brightness level.
    pub fn measure(raw: i16) -> (level: u32)
        ensures
            level == level_of_raw(raw as int),
            level < LEVELS,
    {
        let clamped: u32 = if raw < 0 {
            0
        } else {
            raw as u32
        };
        let spread: u32 = (LEVELS + 2) * clamped;
        if spread < 2 * RAW_SCALE {
            0
        } else {
            let v: u32 = (spread - 2 * RAW_SCALE) / RAW_SCALE;
            if v > LEVELS - 1 {
                LEVELS - 1
            } else {
                v
            }
        }
    }
}

/// Every raw code, in range or not, maps to a level in `0..LEVELS`.
pub proof fn lemma_level_in_range(raw: int)
    ensures
        0 <= level_of_raw(raw) < LEVELS,
{
}

/// The mapping never decreases as the raw code grows.
pub proof fn lemma_level_monotone(r1: int, r2: int)
    requires
        r1 <= r2,
    ensures
        level_of_raw(r1) <= level_of_raw(r2),
{
}

/// A level strictly between the two extremes belongs to exactly the codes
/// whose reading, spread out by `LEVELS + 2`, lies from `level + 2` up to
/// but not including `level + 3`.
pub proof fn lemma_level_band(raw: int, level: int)
    requires
        0 <= raw <= RAW_MAX,
        0 < level < LEVELS - 1,
    ensures
        level_of_raw(raw) == level <==> (level + 2) * RAW_SCALE <= (LEVELS + 2) * raw < (level + 3)
            * RAW_SCALE,
{
}

/// Both ends of the control's travel saturate: exactly the codes up to
/// `DEAD_ZONE_LOW` give level 0, and exactly the codes from `DEAD_ZONE_HIGH`
/// on give the top level.
pub proof fn lemma_dead_zones(raw: int)
    ensures
        level_of_raw(raw) == 0 <==> raw <= DEAD_ZONE_LOW,
        level_of_raw(raw) == LEVELS - 1 <==> raw >= DEAD_ZONE_HIGH,
{
}

} // verus!
