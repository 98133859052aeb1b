//! The knob: from a raw analog sample to a brightness level.
use vstd::prelude::*;
use crate::LEVELS;

verus! {

/// Raw reading that stands for a scaled knob position of exactly one.
pub const FULL_SCALE: u32 = 10_000;

/// Levels' worth of knob travel that is cut off at the low end, and added to
/// the span to make up for it. It lets both the lowest and the highest level
/// be reached before the knob hits its mechanical stops.
pub const BIAS: u32 = 2;

/// A raw sample with negative readings raised to zero.
pub open spec fn clamp_sample(sample: int) -> int {
    if sample < 0 {
        0
    } else {
        sample
    }
}

/// The remapped knob position in units of `1 / FULL_SCALE` of a level, held
/// to the range of levels: `(LEVELS + BIAS) * scaled - BIAS` for the scaled
/// position `clamp_sample(sample) / FULL_SCALE`, limited to `0` below and to
/// `LEVELS - 1` above.
pub open spec fn remapped(sample: int) -> int {
    let position = (LEVELS + BIAS) * clamp_sample(sample) - BIAS * FULL_SCALE;
    if position < 0 {
        0
    } else if position > (LEVELS - 1) * FULL_SCALE {
        (LEVELS - 1) * FULL_SCALE
    } else {
        position
    }
}

/// The level that a raw sample stands for: the remapped position rounded
/// down to a whole level.
pub open spec fn level_of_sample(sample: int) -> int {
    remapped(sample) / (FULL_SCALE as int)
}

/// The remapped position never leaves the range of levels, so neither does
/// the level; and the level is the floor of the position: the position lies
/// at or above it and below the next one.
pub proof fn lemma_level_in_range(sample: int)
    ensures
        0 <= level_of_sample(sample) < LEVELS,
        level_of_sample(sample) * FULL_SCALE <= remapped(sample) < (level_of_sample(sample) + 1)
            * FULL_SCALE,
{
}

/// A knob turned further never reads as a lower level.
pub proof fn lemma_level_monotonic(low: int, high: int)
    requires
        low <= high,
    ensures
        level_of_sample(low) <= level_of_sample(high),
{
}

/// Converts the samples of a potentiometer into levels. It holds no
/// hardware: whoever owns the converter calibrates it, takes a sample and
/// hands the sample in.
#[derive(Clone, Copy, Debug)]
pub struct Knob {}

impl Knob {
    /// A converter for a calibrated analog input.
    pub fn new() -> (knob: Knob) {
        Knob {}
    }

    /// The level for one raw sample. Every sample is accepted: one out of
    /// range is clamped, never rejected.
    pub fn measure(&self, sample: i16) -> (level: u32)
        ensures
            level == level_of_sample(sample as int),
            level < LEVELS,
    {
        let raw: u32 = if sample < 0 {
            0
        } else {
            sample as u32
        };
        let scaled: u32 = (LEVELS + BIAS) * raw / FULL_SCALE;
        if scaled < BIAS {
            0
        } else if scaled - BIAS > LEVELS - 1 {
            LEVELS - 1
        } else {
            scaled - BIAS
        }
    }
}

} // verus!
