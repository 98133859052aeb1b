//! The software PWM driver: which pin to switch, and how long to wait.
//!
//! A pass gives each channel in turn a slot of `LEVELS` ticks. Within its
//! slot a channel at level `n` is held high for `n` ticks and low for the
//! rest, so that its duty cycle over the slot is `n / LEVELS`. The driver
//! takes one snapshot of the shared state per pass; all three channels of
//! the pass are driven from it.
use vstd::prelude::*;
use crate::state::SharedState;
use crate::{CHANNELS, LEVELS};

verus! {

/// Microseconds in a second.
pub const MICROS_PER_SECOND: u64 = 1_000_000;

/// One thing for the owner of the pins to do.
#[derive(Clone, Copy, Debug, PartialEq, Eq, Structural)]
pub enum PinCommand {
    /// Drive the pin of this channel high.
    High(usize),
    /// Drive the pin of this channel low.
    Low(usize),
    /// Leave the pins as they are for this many microseconds.
    Wait(u64),
}

/// The length of a tick in microseconds at a frame rate: a second shared out
/// over `frame_rate` passes of `CHANNELS * LEVELS` ticks, rounded down.
pub open spec fn tick_time_of(frame_rate: int) -> int {
    (MICROS_PER_SECOND as int) / (CHANNELS * frame_rate * LEVELS)
}

/// The commands for the slot of one channel: if the level is above zero, the
/// pin goes high for `level` ticks and then low; if the level is below
/// `LEVELS`, the rest of the slot is waited out.
pub open spec fn step_schedule(led: int, level: int, tick: int) -> Seq<PinCommand> {
    let on = if level > 0 {
        seq![
            PinCommand::High(led as usize),
            PinCommand::Wait((level * tick) as u64),
            PinCommand::Low(led as usize),
        ]
    } else {
        Seq::empty()
    };
    let off = if level < LEVELS {
        seq![PinCommand::Wait(((LEVELS - level) * tick) as u64)]
    } else {
        Seq::empty()
    };
    on + off
}

/// The commands for the slots of the first `channels` channels, one slot
/// after the other.
pub open spec fn pass_prefix(levels: Seq<u32>, tick: int, channels: int) -> Seq<PinCommand>
    decreases channels,
{
    if channels <= 0 {
        Seq::empty()
    } else {
        pass_prefix(levels, tick, channels - 1) + step_schedule(
            channels - 1,
            levels[channels - 1] as int,
            tick,
        )
    }
}

/// The commands of a whole pass: the slots of red, green and blue, one
/// after the other.
pub open spec fn pass_schedule(levels: Seq<u32>, tick: int) -> Seq<PinCommand> {
    pass_prefix(levels, tick, CHANNELS as int)
}

/// Microseconds that a single command takes.
pub open spec fn wait_of(command: PinCommand) -> int {
    match command {
        PinCommand::Wait(micros) => micros as int,
        _ => 0,
    }
}

/// Microseconds that a run of commands takes.
pub open spec fn duration(commands: Seq<PinCommand>) -> int
    decreases commands.len(),
{
    if commands.len() == 0 {
        0
    } else {
        duration(commands.drop_last()) + wait_of(commands.last())
    }
}

/// Whether the pin of a channel is high after a run of commands that began
/// with the pin low.
pub open spec fn is_high(commands: Seq<PinCommand>, led: int) -> bool
    decreases commands.len(),
{
    if commands.len() == 0 {
        false
    } else if commands.last() == PinCommand::High(led as usize) {
        true
    } else if commands.last() == PinCommand::Low(led as usize) {
        false
    } else {
        is_high(commands.drop_last(), led)
    }
}

/// Microseconds for which the pin of a channel is high during a run of
/// commands that began with the pin low.
pub open spec fn high_time(commands: Seq<PinCommand>, led: int) -> int
    decreases commands.len(),
{
    if commands.len() == 0 {
        0
    } else {
        high_time(commands.drop_last(), led) + if is_high(commands.drop_last(), led) {
            wait_of(commands.last())
        } else {
            0
        }
    }
}

/// One run of commands after another takes the sum of their times.
pub proof fn lemma_duration_concat(first: Seq<PinCommand>, second: Seq<PinCommand>)
    ensures
        duration(first + second) == duration(first) + duration(second),
    decreases second.len(),
{
    if second.len() > 0 {
        assert((first + second).drop_last() =~= first + second.drop_last());
        lemma_duration_concat(first, second.drop_last());
    }
}

/// After a run of commands that leaves the pin low, a second run behaves as
/// if it had started afresh: the high times add up.
pub proof fn lemma_high_time_concat(first: Seq<PinCommand>, second: Seq<PinCommand>, led: int)
    requires
        !is_high(first, led),
    ensures
        is_high(first + second, led) == is_high(second, led),
        high_time(first + second, led) == high_time(first, led) + high_time(second, led),
    decreases second.len(),
{
    if second.len() > 0 {
        assert((first + second).drop_last() =~= first + second.drop_last());
        lemma_high_time_concat(first, second.drop_last(), led);
    }
}

/// The slot of a channel is `LEVELS` ticks long. The channel's own pin is
/// high for `level` ticks of it, every other pin for none, and all pins are
/// low when the slot ends.
pub proof fn lemma_step_timing(led: int, level: int, tick: int, pin: int)
    requires
        0 <= led < CHANNELS,
        0 <= pin < CHANNELS,
        0 <= level <= LEVELS,
        0 <= tick,
        LEVELS * tick <= u64::MAX,
    ensures
        duration(step_schedule(led, level, tick)) == LEVELS * tick,
        high_time(step_schedule(led, level, tick), pin) == if pin == led {
            level * tick
        } else {
            0
        },
        !is_high(step_schedule(led, level, tick), pin),
{
    let slots = LEVELS as int;
    let on_time = level * tick;
    let off_time = (slots - level) * tick;
    assert(0 <= on_time && 0 <= off_time && on_time + off_time == slots * tick)
        by (nonlinear_arith)
        requires
            0 <= level <= slots,
            0 <= tick,
            on_time == level * tick,
            off_time == (slots - level) * tick,
    ;
    let on: Seq<PinCommand> = if level > 0 {
        seq![
            PinCommand::High(led as usize),
            PinCommand::Wait(on_time as u64),
            PinCommand::Low(led as usize),
        ]
    } else {
        Seq::empty()
    };
    let off: Seq<PinCommand> = if level < LEVELS {
        seq![PinCommand::Wait(off_time as u64)]
    } else {
        Seq::empty()
    };
    reveal_with_fuel(duration, 4);
    reveal_with_fuel(is_high, 4);
    reveal_with_fuel(high_time, 4);
    lemma_duration_concat(on, off);
    lemma_high_time_concat(on, off, pin);
}

/// The first `channels` slots of a pass take `channels * LEVELS` ticks.
/// During them the pin of each channel that had its slot is high for as
/// many ticks as the channel's level, the other pins for none, and all pins
/// are low at the end.
pub proof fn lemma_prefix_timing(levels: Seq<u32>, tick: int, channels: int, pin: int)
    requires
        levels.len() == CHANNELS,
        forall|i: int| 0 <= i < CHANNELS ==> levels[i] <= LEVELS,
        0 <= tick,
        LEVELS * tick <= u64::MAX,
        0 <= channels <= CHANNELS,
        0 <= pin < CHANNELS,
    ensures
        duration(pass_prefix(levels, tick, channels)) == channels * LEVELS * tick,
        high_time(pass_prefix(levels, tick, channels), pin) == if pin < channels {
            levels[pin] * tick
        } else {
            0
        },
        !is_high(pass_prefix(levels, tick, channels), pin),
    decreases channels,
{
    if channels > 0 {
        let before = pass_prefix(levels, tick, channels - 1);
        let slot = step_schedule(channels - 1, levels[channels - 1] as int, tick);
        lemma_prefix_timing(levels, tick, channels - 1, pin);
        lemma_step_timing(channels - 1, levels[channels - 1] as int, tick, pin);
        lemma_duration_concat(before, slot);
        lemma_high_time_concat(before, slot, pin);
        assert(channels * LEVELS * tick == (channels - 1) * LEVELS * tick + LEVELS * tick)
            by (nonlinear_arith);
    }
}

/// At any frame rate above zero and for any levels up to `LEVELS`: the slot
/// of a channel takes `LEVELS` ticks, of which the channel's pin is high for
/// exactly `level` ticks; a pass takes `CHANNELS * LEVELS` ticks, during
/// which each pin is high for exactly as many ticks as its channel's level;
/// and every pin is low when the pass ends. So the duty cycle of a channel,
/// over its slot, is `level / LEVELS`.
pub proof fn lemma_pass_timing(levels: Seq<u32>, frame_rate: int, pin: int)
    requires
        levels.len() == CHANNELS,
        forall|i: int| 0 <= i < CHANNELS ==> levels[i] <= LEVELS,
        0 < frame_rate,
        0 <= pin < CHANNELS,
    ensures
        duration(step_schedule(pin, levels[pin] as int, tick_time_of(frame_rate))) == LEVELS
            * tick_time_of(frame_rate),
        high_time(step_schedule(pin, levels[pin] as int, tick_time_of(frame_rate)), pin)
            == levels[pin] * tick_time_of(frame_rate),
        duration(pass_schedule(levels, tick_time_of(frame_rate))) == CHANNELS * LEVELS
            * tick_time_of(frame_rate),
        high_time(pass_schedule(levels, tick_time_of(frame_rate)), pin) == levels[pin]
            * tick_time_of(frame_rate),
        !is_high(pass_schedule(levels, tick_time_of(frame_rate)), pin),
{
    let tick = tick_time_of(frame_rate);
    lemma_tick_time_bounds(frame_rate);
    lemma_step_timing(pin, levels[pin] as int, tick, pin);
    lemma_prefix_timing(levels, tick, CHANNELS as int, pin);
}

/// At any frame rate above zero a tick is short enough for the times of a
/// slot to be counted in 64 bits, and a pass takes no longer than the frame
/// it belongs to.
pub proof fn lemma_tick_time_bounds(frame_rate: int)
    requires
        0 < frame_rate,
    ensures
        0 <= tick_time_of(frame_rate) <= MICROS_PER_SECOND / ((CHANNELS * LEVELS) as u64),
        CHANNELS * LEVELS * tick_time_of(frame_rate) * frame_rate <= MICROS_PER_SECOND,
{
    let ticks = (CHANNELS * LEVELS) as int;
    let second = MICROS_PER_SECOND as int;
    let tick = second / (ticks * frame_rate);
    let channels = CHANNELS as int;
    let slots = LEVELS as int;
    assert(channels * frame_rate * slots == ticks * frame_rate) by (nonlinear_arith)
        requires
            channels == 3,
            slots == 16,
            ticks == 48,
    ;
    assert(0 <= tick && tick * (ticks * frame_rate) <= second && tick <= second / ticks)
        by (nonlinear_arith)
        requires
            ticks == 48,
            second == 1_000_000,
            0 < frame_rate,
            tick == second / (ticks * frame_rate),
    ;
    assert(ticks * tick * frame_rate == tick * (ticks * frame_rate)) by (nonlinear_arith);
}

/// The driver's copy of the shared state: the levels of the pass in hand and
/// the tick time worked out from its frame rate. The pins themselves belong
/// to the caller, who carries out the commands of [`Rgb::run`] in order.
pub struct Rgb {
    levels: [u32; 3],
    tick_time: u64,
}

impl Rgb {
    /// No level is above `LEVELS`, and a slot of `LEVELS` ticks fits into a
    /// second.
    #[verifier::type_invariant]
    spec fn well_formed(&self) -> bool {
        &&& forall|i: int| 0 <= i < CHANNELS ==> self.levels[i] <= LEVELS
        &&& LEVELS * self.tick_time <= MICROS_PER_SECOND
    }

    /// The levels that the driver works from.
    pub closed spec fn spec_levels(&self) -> [u32; 3] {
        self.levels
    }

    /// The length of a tick in microseconds that the driver works from.
    pub closed spec fn spec_tick_time(&self) -> u64 {
        self.tick_time
    }

    /// The levels that the driver works from.
    #[verifier::when_used_as_spec(spec_levels)]
    pub fn levels(&self) -> (levels: [u32; 3])
        ensures
            levels == self.spec_levels(),
    {
        self.levels
    }

    /// The length of a tick in microseconds that the driver works from.
    #[verifier::when_used_as_spec(spec_tick_time)]
    pub fn tick_time(&self) -> (tick: u64)
        ensures
            tick == self.spec_tick_time(),
    {
        self.tick_time
    }

    /// The length of a tick in microseconds at a frame rate. At a frame
    /// rate of zero there is none.
    pub fn frame_tick_time(frame_rate: u64) -> (tick: u64)
        requires
            frame_rate > 0,
        ensures
            tick == tick_time_of(frame_rate as int),
            LEVELS * tick <= MICROS_PER_SECOND,
    {
        let channels: u64 = CHANNELS as u64;
        let slots: u64 = LEVELS as u64;
        let ticks: u64 = channels * slots;
        proof {
            lemma_tick_time_bounds(frame_rate as int);
            assert(channels * frame_rate * slots == ticks * frame_rate) by (nonlinear_arith)
                requires
                    channels == 3,
                    slots == 16,
                    ticks == 48,
            ;
        }
        if frame_rate > MICROS_PER_SECOND / ticks {
            assert(MICROS_PER_SECOND as int / (ticks * frame_rate) == 0) by (nonlinear_arith)
                requires
                    ticks == 48,
                    frame_rate > 20833,
                    MICROS_PER_SECOND == 1_000_000,
            ;
            0
        } else {
            MICROS_PER_SECOND / (ticks * frame_rate)
        }
    }

    /// A driver for the given frame rate, which is above zero, with every
    /// channel off.
    pub fn new(frame_rate: u64) -> (rgb: Rgb)
        requires
            frame_rate > 0,
        ensures
            rgb.levels()@ == seq![0u32, 0u32, 0u32],
            rgb.tick_time() == tick_time_of(frame_rate as int),
    {
        let tick_time = Self::frame_tick_time(frame_rate);
        Rgb { levels: [0, 0, 0], tick_time }
    }

    /// The commands for the slot of one of the `CHANNELS` channels: on for
    /// `level` ticks, off for the rest of the `LEVELS` ticks.
    pub fn step(&self, led: usize) -> (commands: Vec<PinCommand>)
        requires
            led < CHANNELS,
        ensures
            commands@ == step_schedule(
                led as int,
                self.levels()[led as int] as int,
                self.tick_time() as int,
            ),
            duration(commands@) == LEVELS * self.tick_time(),
            high_time(commands@, led as int) == self.levels()[led as int] * self.tick_time(),
    {
        proof {
            use_type_invariant(self);
        }
        let level = self.levels[led];
        let tick_time = self.tick_time;
        let mut commands: Vec<PinCommand> = Vec::new();
        if level > 0 {
            assert(level * tick_time <= MICROS_PER_SECOND) by (nonlinear_arith)
                requires
                    level <= LEVELS,
                    LEVELS * tick_time <= MICROS_PER_SECOND,
            ;
            let on_time: u64 = level as u64 * tick_time;
            commands.push(PinCommand::High(led));
            commands.push(PinCommand::Wait(on_time));
            commands.push(PinCommand::Low(led));
        }
        let level = LEVELS - level;
        if level > 0 {
            assert(level * tick_time <= MICROS_PER_SECOND) by (nonlinear_arith)
                requires
                    level <= LEVELS,
                    LEVELS * tick_time <= MICROS_PER_SECOND,
            ;
            let off_time: u64 = level as u64 * tick_time;
            commands.push(PinCommand::Wait(off_time));
        }
        proof {
            lemma_step_timing(
                led as int,
                self.levels[led as int] as int,
                tick_time as int,
                led as int,
            );
        }
        commands
    }

    /// One pass of the driver. It takes over the snapshot, works out the
    /// tick time from its frame rate, and gives the commands for the slots
    /// of red, green and blue, all three from that one snapshot. The
    /// snapshot has to be one that [`SharedState::drivable`] accepts.
    pub fn run(&mut self, snapshot: SharedState) -> (commands: Vec<PinCommand>)
        requires
            snapshot.drivable(),
        ensures
            final(self).levels() == snapshot.levels,
            final(self).tick_time() == tick_time_of(snapshot.frame_rate as int),
            commands@ == pass_schedule(snapshot.levels@, final(self).tick_time() as int),
            duration(commands@) == CHANNELS * LEVELS * final(self).tick_time(),
            forall|led: int|
                0 <= led < CHANNELS ==> {
                    &&& high_time(commands@, led) == snapshot.levels[led] * tick_time_of(
                        snapshot.frame_rate as int,
                    )
                    &&& !is_high(commands@, led)
                },
    {
        proof {
            use_type_invariant(&*self);
        }
        self.levels = snapshot.levels;
        self.tick_time = Self::frame_tick_time(snapshot.frame_rate);
        let mut commands: Vec<PinCommand> = Vec::new();
        let mut led: usize = 0;
        while led < CHANNELS
            invariant
                led <= CHANNELS,
                self.levels == snapshot.levels,
                commands@ == pass_prefix(self.levels@, self.tick_time as int, led as int),
            decreases CHANNELS - led,
        {
            let mut slot = self.step(led);
            commands.append(&mut slot);
            led = led + 1;
        }
        proof {
            let tick = self.tick_time as int;
            assert forall|pin: int| 0 <= pin < CHANNELS implies high_time(commands@, pin)
                == snapshot.levels[pin] * tick && !is_high(commands@, pin) by {
                lemma_pass_timing(snapshot.levels@, snapshot.frame_rate as int, pin);
            }
            lemma_pass_timing(snapshot.levels@, snapshot.frame_rate as int, 0);
        }
        commands
    }
}

} // verus!
