//! The record that the control loop and the PWM driver share.
//!
//! The control loop writes it and the driver reads it. It is the only thing
//! the two exchange. The lock that guards it belongs to the caller: a writer
//! or reader holds the lock just long enough to copy a snapshot in or out.
use vstd::prelude::*;
use crate::{CHANNELS, LEVELS};

verus! {

/// Lowest frame rate that the knob can select, in frames per second.
pub const MIN_FRAME_RATE: u64 = 10;

/// Highest frame rate that the knob can select.
pub const MAX_FRAME_RATE: u64 = 160;

/// Step between two frame rates that the knob can select.
pub const FRAME_RATE_STEP: u64 = 10;

/// A snapshot of the shared state: the level of each channel, and the frame
/// rate in frames per second.
#[derive(Clone, Copy, Debug, PartialEq, Eq)]
pub struct SharedState {
    pub levels: [u32; 3],
    pub frame_rate: u64,
}

impl SharedState {
    /// Every level is below `LEVELS`, and the frame rate is one of those the
    /// knob can select: `MIN_FRAME_RATE` to `MAX_FRAME_RATE` in steps of
    /// `FRAME_RATE_STEP`.
    pub open spec fn valid(&self) -> bool {
        &&& forall|i: int| 0 <= i < CHANNELS ==> self.levels[i] < LEVELS
        &&& MIN_FRAME_RATE <= self.frame_rate <= MAX_FRAME_RATE
        &&& self.frame_rate % FRAME_RATE_STEP == 0
    }

    /// Whether the PWM driver can make a pass from this snapshot: no level
    /// is above `LEVELS`, and the frame rate is above zero.
    pub open spec fn spec_drivable(&self) -> bool {
        &&& forall|i: int| 0 <= i < CHANNELS ==> self.levels[i] <= LEVELS
        &&& self.frame_rate > 0
    }

    /// Whether the PWM driver can make a pass from this snapshot.
    #[verifier::when_used_as_spec(spec_drivable)]
    pub fn drivable(&self) -> (ok: bool)
        ensures
            ok == self.spec_drivable(),
    {
        let mut led: usize = 0;
        while led < CHANNELS
            invariant
                led <= CHANNELS,
                forall|i: int| 0 <= i < led ==> self.levels[i] <= LEVELS,
            decreases CHANNELS - led,
        {
            if self.levels[led] > LEVELS {
                return false;
            }
            led = led + 1;
        }
        self.frame_rate > 0
    }

    /// The state at start-up: levels that give white, at 100 frames per
    /// second.
    pub fn new() -> (state: SharedState)
        ensures
            state.levels@ == seq![15u32, 4u32, 6u32],
            state.frame_rate == 100,
            state.valid(),
    {
        SharedState { levels: [15, 4, 6], frame_rate: 100 }
    }
}

} // verus!
