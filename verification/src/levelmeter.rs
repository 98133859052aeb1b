//! The readout: a bar graph of the current levels and frame rate on a 5x5
//! LED matrix.
//!
//! Columns 0, 1 and 2 show red, green and blue, column 4 shows the frame
//! rate, column 3 stays dark. A bar grows from the bottom row upwards.
use vstd::prelude::*;
use microbit_bsp::display::Frame;
use crate::state::{MAX_FRAME_RATE, MIN_FRAME_RATE};
use crate::{CHANNELS, LEVELS};

verus! {

/// Rows, and columns, of the LED matrix.
pub const GRID_HEIGHT: usize = 5;

/// Column of the frame-rate bar.
pub const RATE_COLUMN: usize = 4;

/// Milliseconds for which a frame is to be held on the display. The hold
/// doubles as the pacing of the control loop.
pub const HOLD_MILLIS: u64 = 50;

/// Lit cells in the bar of a channel: `level * GRID_HEIGHT / LEVELS`,
/// rounded up.
pub open spec fn lit_count(level: int) -> int {
    (level * GRID_HEIGHT + LEVELS - 1) / (LEVELS as int)
}

/// Lit cells in the bar of the frame rate:
/// `(frame_rate - MIN_FRAME_RATE) * GRID_HEIGHT / (MAX_FRAME_RATE - MIN_FRAME_RATE)`,
/// rounded up. The bar is dark at the lowest frame rate and below, and full
/// at the highest.
pub open spec fn rate_lit_count(frame_rate: int) -> int {
    ((frame_rate - MIN_FRAME_RATE) * GRID_HEIGHT + (MAX_FRAME_RATE - MIN_FRAME_RATE) - 1) / (
    MAX_FRAME_RATE - MIN_FRAME_RATE)
}

/// The cells `(column, row)` of a bar of `lit` cells in column `column`:
/// the lowest `lit` rows. Row 0 is the top row.
pub open spec fn bar_cells(column: int, lit: int) -> Set<(int, int)> {
    Set::new(|cell: (int, int)| cell.0 == column && GRID_HEIGHT - lit <= cell.1 < GRID_HEIGHT)
}

/// The cells that are lit for the given levels and frame rate.
pub open spec fn readout_cells(levels: Seq<u32>, frame_rate: int) -> Set<(int, int)> {
    Set::new(
        |cell: (int, int)|
            {
                ||| 0 <= cell.0 < CHANNELS && bar_cells(
                    cell.0,
                    lit_count(levels[cell.0] as int),
                ).contains(cell)
                ||| bar_cells(RATE_COLUMN as int, rate_lit_count(frame_rate)).contains(cell)
            },
    )
}

/// `lit_count` is the ceiling of `level * GRID_HEIGHT / LEVELS`: the least
/// number of cells whose share of the column is no less than the level's
/// share of the range.
pub proof fn lemma_lit_count_is_ceiling(level: int)
    requires
        0 <= level,
    ensures
        (lit_count(level) - 1) * LEVELS < level * GRID_HEIGHT <= lit_count(level) * LEVELS,
{
}

/// A higher level never lights fewer cells, and the bar is full at the
/// highest level.
pub proof fn lemma_lit_count_monotonic(low: int, high: int)
    requires
        0 <= low <= high,
    ensures
        0 <= lit_count(low) <= lit_count(high),
        high <= LEVELS ==> lit_count(high) <= GRID_HEIGHT,
        lit_count(LEVELS - 1) == GRID_HEIGHT,
        lit_count(0) == 0,
{
}

/// `rate_lit_count` is the ceiling of its quotient, grows with the frame
/// rate, is dark at the lowest rate and below, and full at the highest.
pub proof fn lemma_rate_lit_count(low: int, high: int)
    requires
        0 <= low <= high,
    ensures
        0 <= rate_lit_count(low) <= rate_lit_count(high),
        (rate_lit_count(high) - 1) * (MAX_FRAME_RATE - MIN_FRAME_RATE) < (high - MIN_FRAME_RATE)
            * GRID_HEIGHT <= rate_lit_count(high) * (MAX_FRAME_RATE - MIN_FRAME_RATE),
        high <= MIN_FRAME_RATE ==> rate_lit_count(high) == 0,
        high <= MAX_FRAME_RATE ==> rate_lit_count(high) <= GRID_HEIGHT,
        rate_lit_count(MAX_FRAME_RATE as int) == GRID_HEIGHT,
{
}

/// The frame buffer of the display driver, `microbit_bsp::display::Frame`.
/// The library sees nothing inside it: what it holds is spoken of through
/// [`frame_cells`] and [`frame_width`].
#[verifier::external_type_specification]
#[verifier::external_body]
pub struct ExFrame<const XSIZE: usize, const YSIZE: usize>(Frame<XSIZE, YSIZE>);

/// The cells `(x, y)` of a frame that are set: column `x` of row `y`, as
/// `Frame::is_set` tells it.
pub uninterp spec fn frame_cells(frame: Frame<5, 5>) -> Set<(int, int)>;

/// The number of columns that the rows of a frame were made with; the
/// smallest such number where the rows differ.
pub uninterp spec fn frame_width(frame: Frame<5, 5>) -> int;

/// `Frame::default`, which is `Frame::empty`. Taken on trust from the
/// driver's source: every row of the new frame is made `XSIZE` columns wide
/// and has no cell set.
#[verifier::external_body]
fn frame_empty() -> (frame: Frame<5, 5>)
    ensures
        frame_cells(frame) == Set::<(int, int)>::empty(),
        frame_width(frame) == 5,
{
    Frame::default()
}

/// `Frame::set`. Taken on trust from the driver's source: it sets the bit of
/// column `x` in row `y` and touches nothing else, so the cell `(x, y)` is
/// set afterwards and every other cell, and the width of the rows, is as it
/// was. It panics on a row that the frame does not have and on a column
/// beyond the width of that row; the precondition leaves both out.
#[verifier::external_body]
fn frame_set(frame: &mut Frame<5, 5>, x: usize, y: usize)
    requires
        frame_width(*old(frame)) == 5,
        x < 5,
        y < 5,
    ensures
        frame_cells(*final(frame)) == frame_cells(*old(frame)).insert((x as int, y as int)),
        frame_width(*final(frame)) == 5,
{
    frame.set(x, y)
}

/// Lit cells in the bar of a channel. A level above `LEVELS` would need a
/// bar taller than the grid.
pub fn lit_leds(level: u32) -> (lit: usize)
    requires
        level <= LEVELS,
    ensures
        lit == lit_count(level as int),
        lit <= GRID_HEIGHT,
{
    let levels: usize = LEVELS as usize;
    (level as usize * GRID_HEIGHT + (levels - 1)) / levels
}

/// Lit cells in the bar of the frame rate. A frame rate above
/// `MAX_FRAME_RATE` would need a bar taller than the grid.
pub fn frame_rate_leds(frame_rate: u64) -> (lit: usize)
    requires
        frame_rate <= MAX_FRAME_RATE,
    ensures
        lit == rate_lit_count(frame_rate as int),
        lit <= GRID_HEIGHT,
{
    if frame_rate <= MIN_FRAME_RATE {
        0
    } else {
        let span: usize = (MAX_FRAME_RATE - MIN_FRAME_RATE) as usize;
        let above: usize = (frame_rate - MIN_FRAME_RATE) as usize;
        (above * GRID_HEIGHT + (span - 1)) / span
    }
}

/// Lights the lowest `lit` cells of a column.
fn light_bar(frame: &mut Frame<5, 5>, column: usize, lit: usize)
    requires
        frame_width(*old(frame)) == GRID_HEIGHT,
        column < GRID_HEIGHT,
        lit <= GRID_HEIGHT,
    ensures
        frame_width(*final(frame)) == GRID_HEIGHT,
        frame_cells(*final(frame)) == frame_cells(*old(frame)).union(
            bar_cells(column as int, lit as int),
        ),
{
    let mut idx: usize = 0;
    while idx < lit
        invariant
            idx <= lit <= GRID_HEIGHT,
            column < GRID_HEIGHT,
            frame_width(*frame) == GRID_HEIGHT,
            frame_cells(*frame) == frame_cells(*old(frame)).union(
                bar_cells(column as int, idx as int),
            ),
        decreases lit - idx,
    {
        let row: usize = GRID_HEIGHT - 1 - idx;
        frame_set(frame, column, row);
        idx = idx + 1;
    }
}

/// The bar-graph readout. It owns the frame that shows the state it was
/// last updated with; the display itself belongs to the caller, who shows
/// [`LevelMeter::frame`] for [`HOLD_MILLIS`] milliseconds after every
/// update.
pub struct LevelMeter {
    frame: Frame<5, 5>,
}

impl View for LevelMeter {
    type V = Set<(int, int)>;

    /// The lit cells `(column, row)`.
    closed spec fn view(&self) -> Set<(int, int)> {
        frame_cells(self.frame)
    }
}

impl LevelMeter {
    /// The frame is as wide as the grid.
    #[verifier::type_invariant]
    spec fn well_formed(&self) -> bool {
        frame_width(self.frame) == GRID_HEIGHT
    }

    /// A readout with every cell dark.
    pub fn new() -> (meter: LevelMeter)
        ensures
            meter@ == Set::<(int, int)>::empty(),
    {
        LevelMeter { frame: frame_empty() }
    }

    /// The frame to put on the display.
    pub fn frame(&self) -> (frame: Frame<5, 5>)
        ensures
            frame_cells(frame) == self@,
    {
        self.frame
    }

    /// Redraws the readout for the given levels and frame rate: one bar per
    /// channel, and the bar of the frame rate. No bar may be taller than the
    /// grid: no level above `LEVELS`, no frame rate above `MAX_FRAME_RATE`.
    pub fn update_display(&mut self, levels: [u32; 3], frame_rate: u64)
        requires
            forall|i: int| 0 <= i < CHANNELS ==> levels[i] <= LEVELS,
            frame_rate <= MAX_FRAME_RATE,
        ensures
            final(self)@ == readout_cells(levels@, frame_rate as int),
    {
        let mut frame = frame_empty();
        let mut column: usize = 0;
        while column < CHANNELS
            invariant
                column <= CHANNELS,
                forall|i: int| 0 <= i < CHANNELS ==> levels[i] <= LEVELS,
                frame_width(frame) == GRID_HEIGHT,
                frame_cells(frame) == Set::new(
                    |cell: (int, int)|
                        0 <= cell.0 < column && bar_cells(
                            cell.0,
                            lit_count(levels[cell.0] as int),
                        ).contains(cell),
                ),
            decreases CHANNELS - column,
        {
            let lit = lit_leds(levels[column]);
            light_bar(&mut frame, column, lit);
            column = column + 1;
        }
        let lit = frame_rate_leds(frame_rate);
        light_bar(&mut frame, RATE_COLUMN, lit);
        self.frame = frame;
    }
}

} // verus!
