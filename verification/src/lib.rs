//! Brightness engine for an RGB LED that is driven by plain on/off pins.
//!
//! Perceived brightness comes from a software-generated duty cycle: every
//! channel owns a slot of [`LEVELS`] ticks per pass and is held high for
//! `level` ticks of it. A knob and two buttons edit the three channel levels
//! and the frame rate, and a bar graph on a 5x5 LED matrix mirrors them.
//!
//! The crate holds the decisions only. Sampling the knob, reading the
//! buttons, toggling pins, sleeping and taking the lock around the shared
//! state are left to the caller, who feeds in plain readings and carries out
//! the commands that come back.
//!
//! * [`knob`]: raw sample to quantised level,
//! * [`state`]: the record shared between the control loop and the driver,
//! * [`rgb`]: the time-sliced PWM schedule,
//! * [`levelmeter`]: the bar-graph readout,
//! * [`ui`]: the button-driven control loop and its status report,
//! * [`decimal`]: decimal text of the numbers in the report.
use vstd::prelude::*;

pub mod decimal;
pub mod knob;
pub mod levelmeter;
pub mod rgb;
pub mod state;
pub mod ui;

verus! {

/// Number of brightness steps of every colour channel. A level is a number
/// below `LEVELS`; a channel's slot in a pass is `LEVELS` ticks long.
pub const LEVELS: u32 = 16;

/// Number of colour channels: red, green, blue, in that order.
pub const CHANNELS: usize = 3;

} // verus!
