//! The control loop: which value the knob edits, and what follows from a
//! new reading.
//!
//! The two buttons select the value: neither for the frame rate, A for
//! blue, B for green, both for red. The selection is made afresh in every
//! iteration; there is no hysteresis. A reading that changes the selected
//! value is written to the shared state and reported; every iteration
//! redraws the readout.
use vstd::prelude::*;
use microbit_bsp::display::Frame;
use crate::decimal::{decimal, push_decimal};
use crate::knob::{level_of_sample, Knob};
use crate::levelmeter::{frame_cells, readout_cells, LevelMeter, HOLD_MILLIS};
use crate::state::{SharedState, FRAME_RATE_STEP, MAX_FRAME_RATE, MIN_FRAME_RATE};
use crate::{CHANNELS, LEVELS};

verus! {

/// Which of the two buttons are held down.
#[derive(Clone, Copy, Debug, PartialEq, Eq, Structural)]
pub enum ButtonPressed {
    Neither,
    A,
    B,
    Both,
}

/// The value that the knob edits.
#[derive(Clone, Copy, Debug, PartialEq, Eq, Structural)]
pub enum Control {
    RedLed,
    GreenLed,
    BlueLed,
    FrameRate,
}

/// The buttons are active-low: a button is held down while its pin reads
/// low.
pub open spec fn buttons_of(a_low: bool, b_low: bool) -> ButtonPressed {
    if a_low && b_low {
        ButtonPressed::Both
    } else if a_low {
        ButtonPressed::A
    } else if b_low {
        ButtonPressed::B
    } else {
        ButtonPressed::Neither
    }
}

/// The value that a combination of buttons selects.
pub open spec fn control_of(buttons: ButtonPressed) -> Control {
    match buttons {
        ButtonPressed::Both => Control::RedLed,
        ButtonPressed::A => Control::BlueLed,
        ButtonPressed::B => Control::GreenLed,
        ButtonPressed::Neither => Control::FrameRate,
    }
}

/// The frame rate that a knob level selects.
pub open spec fn frame_rate_of(level: int) -> int {
    (level + 1) * FRAME_RATE_STEP
}

/// The levels after the knob, at `level`, has edited the selected value.
pub open spec fn next_levels(levels: Seq<u32>, control: Control, level: u32) -> Seq<u32> {
    match control {
        Control::RedLed => levels.update(0, level),
        Control::GreenLed => levels.update(1, level),
        Control::BlueLed => levels.update(2, level),
        Control::FrameRate => levels,
    }
}

/// The frame rate after the knob, at `level`, has edited the selected value.
pub open spec fn next_frame_rate(frame_rate: u64, control: Control, level: u32) -> u64 {
    match control {
        Control::FrameRate => frame_rate_of(level as int) as u64,
        _ => frame_rate,
    }
}

/// Whether the knob, at `level`, gives the selected value a new value.
pub open spec fn edits(levels: Seq<u32>, frame_rate: u64, control: Control, level: u32) -> bool {
    ||| next_levels(levels, control, level) != levels
    ||| next_frame_rate(frame_rate, control, level) != frame_rate
}

/// One line of the status report: a name, a colon and a space, a number, and
/// a line feed.
pub open spec fn line_of(name: Seq<char>, value: nat) -> Seq<char> {
    name + ": "@ + decimal(value) + "\n"@
}

/// The status report: an empty line, a line for each of red, green and blue
/// with its level, and a line with the frame rate.
pub open spec fn report_of(levels: Seq<u32>, frame_rate: u64) -> Seq<char> {
    "\n"@ + line_of("red"@, levels[0] as nat) + line_of("green"@, levels[1] as nat) + line_of(
        "blue"@,
        levels[2] as nat,
    ) + line_of("frame rate"@, frame_rate as nat)
}

/// Every combination of buttons selects one value, and no two combinations
/// select the same one. Both buttons together select red, which neither
/// does alone.
pub proof fn lemma_control_selection(a_low: bool, b_low: bool, other_a_low: bool, other_b_low: bool)
    ensures
        control_of(buttons_of(a_low, b_low)) == control_of(buttons_of(other_a_low, other_b_low))
            <==> a_low == other_a_low && b_low == other_b_low,
        control_of(buttons_of(true, true)) == Control::RedLed,
        control_of(buttons_of(true, false)) == Control::BlueLed,
        control_of(buttons_of(false, true)) == Control::GreenLed,
        control_of(buttons_of(false, false)) == Control::FrameRate,
{
}

/// Every value has a combination of buttons that selects it.
pub proof fn lemma_control_reachable(control: Control)
    ensures
        exists|a_low: bool, b_low: bool| #[trigger] control_of(buttons_of(a_low, b_low)) == control,
{
    match control {
        Control::RedLed => {
            assert(control_of(buttons_of(true, true)) == control);
        },
        Control::BlueLed => {
            assert(control_of(buttons_of(true, false)) == control);
        },
        Control::GreenLed => {
            assert(control_of(buttons_of(false, true)) == control);
        },
        Control::FrameRate => {
            assert(control_of(buttons_of(false, false)) == control);
        },
    }
}

/// A higher knob level never selects a lower frame rate, equal levels select
/// equal frame rates, and the levels of the knob select the frame rates from
/// `MIN_FRAME_RATE` to `MAX_FRAME_RATE` in steps of `FRAME_RATE_STEP`.
pub proof fn lemma_frame_rate_mapping(low: int, high: int)
    requires
        0 <= low <= high,
    ensures
        frame_rate_of(low) <= frame_rate_of(high),
        low == high ==> frame_rate_of(low) == frame_rate_of(high),
        low < high ==> frame_rate_of(low) + FRAME_RATE_STEP <= frame_rate_of(high),
        frame_rate_of(0) == MIN_FRAME_RATE,
        frame_rate_of(LEVELS - 1) == MAX_FRAME_RATE,
        high < LEVELS ==> MIN_FRAME_RATE <= frame_rate_of(high) <= MAX_FRAME_RATE,
        frame_rate_of(high) % (FRAME_RATE_STEP as int) == 0,
{
}

/// Editing a value twice with the same knob level is the same as editing it
/// once: the second time nothing changes.
pub proof fn lemma_edit_idempotent(levels: Seq<u32>, frame_rate: u64, control: Control, level: u32)
    requires
        levels.len() == CHANNELS,
    ensures
        next_levels(next_levels(levels, control, level), control, level) == next_levels(
            levels,
            control,
            level,
        ),
        next_frame_rate(next_frame_rate(frame_rate, control, level), control, level)
            == next_frame_rate(frame_rate, control, level),
        !edits(
            next_levels(levels, control, level),
            next_frame_rate(frame_rate, control, level),
            control,
            level,
        ),
{
}

/// An edit touches the selected value and no other.
pub proof fn lemma_edit_touches_one(levels: Seq<u32>, frame_rate: u64, control: Control, level: u32)
    requires
        levels.len() == CHANNELS,
    ensures
        next_levels(levels, control, level).len() == CHANNELS,
        control == Control::RedLed ==> next_levels(levels, control, level) == seq![
            level,
            levels[1],
            levels[2],
        ],
        control == Control::GreenLed ==> next_levels(levels, control, level) == seq![
            levels[0],
            level,
            levels[2],
        ],
        control == Control::BlueLed ==> next_levels(levels, control, level) == seq![
            levels[0],
            levels[1],
            level,
        ],
        control == Control::FrameRate ==> next_levels(levels, control, level) == levels,
        control != Control::FrameRate ==> next_frame_rate(frame_rate, control, level)
            == frame_rate,
{
}

/// What the control loop holds: the values it last applied. Every level
/// in it is below `LEVELS`, and its frame rate is one that the knob can
/// select.
#[derive(Clone, Copy, Debug, PartialEq, Eq)]
pub struct UiState {
    levels: [u32; 3],
    frame_rate: u64,
}

impl UiState {
    /// Every level is below `LEVELS`, and the frame rate is one of those
    /// from `MIN_FRAME_RATE` to `MAX_FRAME_RATE` in steps of
    /// `FRAME_RATE_STEP`.
    #[verifier::type_invariant]
    spec fn well_formed(&self) -> bool {
        &&& forall|i: int| 0 <= i < CHANNELS ==> self.levels[i] < LEVELS
        &&& MIN_FRAME_RATE <= self.frame_rate <= MAX_FRAME_RATE
        &&& self.frame_rate % FRAME_RATE_STEP == 0
    }

    /// The level of each channel.
    pub closed spec fn spec_levels(&self) -> [u32; 3] {
        self.levels
    }

    /// The frame rate in frames per second.
    pub closed spec fn spec_frame_rate(&self) -> u64 {
        self.frame_rate
    }

    /// The level of each channel.
    #[verifier::when_used_as_spec(spec_levels)]
    pub fn levels(&self) -> (levels: [u32; 3])
        ensures
            levels == self.spec_levels(),
            forall|i: int| 0 <= i < CHANNELS ==> levels[i] < LEVELS,
    {
        proof {
            use_type_invariant(self);
        }
        self.levels
    }

    /// The frame rate in frames per second.
    #[verifier::when_used_as_spec(spec_frame_rate)]
    pub fn frame_rate(&self) -> (frame_rate: u64)
        ensures
            frame_rate == self.spec_frame_rate(),
            MIN_FRAME_RATE <= frame_rate <= MAX_FRAME_RATE,
            frame_rate % FRAME_RATE_STEP == 0,
    {
        proof {
            use_type_invariant(self);
        }
        self.frame_rate
    }

    /// The status report for this state.
    pub fn show(&self) -> (text: String)
        ensures
            text@ == report_of(self.levels()@, self.frame_rate()),
    {
        let mut text = String::new();
        text.append("\n");
        push_line(&mut text, "red", self.levels[0] as u64);
        push_line(&mut text, "green", self.levels[1] as u64);
        push_line(&mut text, "blue", self.levels[2] as u64);
        push_line(&mut text, "frame rate", self.frame_rate);
        text
    }

    /// The state as a snapshot for the shared state.
    pub fn snapshot(&self) -> (snapshot: SharedState)
        ensures
            snapshot.levels == self.levels(),
            snapshot.frame_rate == self.frame_rate(),
            snapshot.valid(),
    {
        proof {
            use_type_invariant(self);
        }
        SharedState { levels: self.levels, frame_rate: self.frame_rate }
    }
}

impl Default for UiState {
    /// The state at start-up: levels that give white, at 100 frames per
    /// second.
    fn default() -> (state: UiState)
        ensures
            state.levels()@ == seq![15u32, 4u32, 6u32],
            state.frame_rate() == 100,
    {
        UiState { levels: [15, 4, 6], frame_rate: 100 }
    }
}

/// Appends one line of the status report to a text.
fn push_line(text: &mut String, name: &str, value: u64)
    ensures
        final(text)@ == old(text)@ + line_of(name@, value as nat),
{
    text.append(name);
    text.append(": ");
    push_decimal(text, value);
    text.append("\n");
}

/// What one iteration of the control loop asks of its caller: to emit the
/// report and to write the snapshot, where there is one, and then to show
/// the frame for the hold time.
#[derive(Debug)]
pub struct UiUpdate {
    /// The value that the knob edited in this iteration.
    pub control: Control,
    /// The status report to emit, if the value changed.
    pub report: Option<String>,
    /// The snapshot to write to the shared state, if the value changed.
    pub store: Option<SharedState>,
    /// The frame of the readout, to put on the display.
    pub frame: Frame<5, 5>,
    /// Milliseconds to hold the frame on the display before the next
    /// iteration.
    pub hold_millis: u64,
}

/// The control loop. It owns the knob's converter, the readout and the
/// state it last applied; the buttons, the analog input and the display
/// belong to the caller.
pub struct Ui {
    knob: Knob,
    levelmeter: LevelMeter,
    state: UiState,
}

impl Ui {
    /// The state that the loop last applied.
    pub closed spec fn spec_state(&self) -> UiState {
        self.state
    }

    /// The lit cells `(column, row)` of the readout.
    pub closed spec fn readout(&self) -> Set<(int, int)> {
        self.levelmeter@
    }

    /// A control loop in its start-up state.
    pub fn new(knob: Knob, levelmeter: LevelMeter) -> (ui: Ui)
        ensures
            ui.state().levels()@ == seq![15u32, 4u32, 6u32],
            ui.state().frame_rate() == 100,
            ui.readout() == levelmeter@,
    {
        Ui { knob, levelmeter, state: UiState::default() }
    }

    /// The state that the loop last applied.
    #[verifier::when_used_as_spec(spec_state)]
    pub fn state(&self) -> (state: UiState)
        ensures
            state == self.spec_state(),
    {
        self.state
    }

    /// The frame of the readout, to put on the display.
    pub fn frame(&self) -> (frame: Frame<5, 5>)
        ensures
            frame_cells(frame) == self.readout(),
    {
        self.levelmeter.frame()
    }

    /// Which buttons are held down, from the readings of their pins.
    pub fn button_state(&self, a_low: bool, b_low: bool) -> (buttons: ButtonPressed)
        ensures
            buttons == buttons_of(a_low, b_low),
    {
        match (a_low, b_low) {
            (true, true) => ButtonPressed::Both,
            (true, false) => ButtonPressed::A,
            (false, true) => ButtonPressed::B,
            (false, false) => ButtonPressed::Neither,
        }
    }

    /// The frame rate that a knob level selects: `MIN_FRAME_RATE` at level
    /// zero, and `FRAME_RATE_STEP` more for every level above it.
    pub fn frame_rate_from_level(&self, level: u32) -> (frame_rate: u64)
        ensures
            frame_rate == frame_rate_of(level as int),
    {
        (level as u64 + 1) * FRAME_RATE_STEP
    }

    /// One iteration of the control loop, for one sample of the knob and
    /// one reading of the two button pins.
    ///
    /// The buttons select the value to edit and the sample gives its new
    /// value. If that differs from the value held, the state takes it over,
    /// and the update carries the status report and the snapshot for the
    /// shared state; if not, it carries neither. In both cases the readout
    /// is redrawn from the state, and the update carries its frame and the
    /// time to hold it, which paces the loop.
    pub fn run(&mut self, sample: i16, a_low: bool, b_low: bool) -> (update: UiUpdate)
        ensures
            update.control == control_of(buttons_of(a_low, b_low)),
            final(self).state().levels()@ == next_levels(
                old(self).state().levels()@,
                update.control,
                level_of_sample(sample as int) as u32,
            ),
            final(self).state().frame_rate() == next_frame_rate(
                old(self).state().frame_rate(),
                update.control,
                level_of_sample(sample as int) as u32,
            ),
            (update.store is Some) <==> edits(
                old(self).state().levels()@,
                old(self).state().frame_rate(),
                update.control,
                level_of_sample(sample as int) as u32,
            ),
            (update.report is Some) <==> (update.store is Some),
            update.store matches Some(snapshot) ==> {
                &&& snapshot.levels == final(self).state().levels()
                &&& snapshot.frame_rate == final(self).state().frame_rate()
                &&& snapshot.valid()
            },
            update.report matches Some(text) ==> text@ == report_of(
                final(self).state().levels()@,
                final(self).state().frame_rate(),
            ),
            final(self).readout() == readout_cells(
                final(self).state().levels()@,
                final(self).state().frame_rate() as int,
            ),
            frame_cells(update.frame) == final(self).readout(),
            update.hold_millis == HOLD_MILLIS,
    {
        let level = self.knob.measure(sample);
        let mut control_changed = false;
        let control = match self.button_state(a_low, b_low) {
            ButtonPressed::Both => Control::RedLed,
            ButtonPressed::A => Control::BlueLed,
            ButtonPressed::B => Control::GreenLed,
            ButtonPressed::Neither => Control::FrameRate,
        };
        let mut levels = self.state.levels();
        let mut frame_rate = self.state.frame_rate();
        match control {
            Control::RedLed => {
                if level != levels[0] {
                    levels[0] = level;
                    control_changed = true;
                }
            },
            Control::GreenLed => {
                if level != levels[1] {
                    levels[1] = level;
                    control_changed = true;
                }
            },
            Control::BlueLed => {
                if level != levels[2] {
                    levels[2] = level;
                    control_changed = true;
                }
            },
            Control::FrameRate => {
                let selected = self.frame_rate_from_level(level);
                if selected != frame_rate {
                    frame_rate = selected;
                    control_changed = true;
                }
            },
        }
        self.state = UiState { levels, frame_rate };
        let (report, store) = if control_changed {
            (Some(self.state.show()), Some(self.state.snapshot()))
        } else {
            (None, None)
        };
        self.levelmeter.update_display(levels, frame_rate);
        UiUpdate {
            control,
            report,
            store,
            frame: self.levelmeter.frame(),
            hold_millis: HOLD_MILLIS,
        }
    }
}

} // verus!
