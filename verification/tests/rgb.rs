use rgbcal::rgb::{PinCommand, Rgb};
use rgbcal::state::SharedState;
use rgbcal::{CHANNELS, LEVELS};

/// Total of the waits in a run of commands.
fn duration(commands: &[PinCommand]) -> u64 {
    let mut total = 0;
    for command in commands {
        if let PinCommand::Wait(micros) = command {
            total += micros;
        }
    }
    total
}

/// Time that one pin is high during a run of commands that starts with the
/// pin low, and whether the pin is high at the end.
fn high_time(commands: &[PinCommand], led: usize) -> (u64, bool) {
    let mut total = 0;
    let mut high = false;
    for command in commands {
        match *command {
            PinCommand::High(pin) if pin == led => high = true,
            PinCommand::Low(pin) if pin == led => high = false,
            PinCommand::Wait(micros) if high => total += micros,
            _ => {}
        }
    }
    (total, high)
}

#[test]
fn frame_tick_time_divides_the_second() {
    // 1_000_000 / (3 * 100 * 16) = 208.33
    assert_eq!(Rgb::frame_tick_time(100), 208);
    // 1_000_000 / (3 * 10 * 16) = 2083.33
    assert_eq!(Rgb::frame_tick_time(10), 2083);
    // 1_000_000 / (3 * 160 * 16) = 130.2
    assert_eq!(Rgb::frame_tick_time(160), 130);
    assert_eq!(Rgb::frame_tick_time(1), 20_833);
}

#[test]
fn frame_tick_time_is_zero_at_very_high_frame_rates() {
    assert_eq!(Rgb::frame_tick_time(20_833), 1);
    assert_eq!(Rgb::frame_tick_time(20_834), 0);
    assert_eq!(Rgb::frame_tick_time(u64::MAX / 48), 0);
    assert_eq!(Rgb::frame_tick_time(u64::MAX / 48 + 1), 0);
    assert_eq!(Rgb::frame_tick_time(u64::MAX), 0);
}

#[test]
fn new_starts_with_every_channel_off() {
    let rgb = Rgb::new(100);
    assert_eq!(rgb.levels(), [0, 0, 0]);
    assert_eq!(rgb.tick_time(), 208);
    for led in 0..CHANNELS {
        assert_eq!(rgb.step(led), vec![PinCommand::Wait(16 * 208)]);
    }
}

#[test]
fn step_holds_the_pin_high_for_level_ticks_then_low() {
    let mut rgb = Rgb::new(100);
    rgb.run(SharedState { levels: [15, 4, 6], frame_rate: 100 });
    assert_eq!(
        rgb.step(1),
        vec![
            PinCommand::High(1),
            PinCommand::Wait(4 * 208),
            PinCommand::Low(1),
            PinCommand::Wait(12 * 208),
        ]
    );
}

#[test]
fn step_skips_the_on_time_at_level_zero() {
    let mut rgb = Rgb::new(100);
    rgb.run(SharedState { levels: [0, 4, 6], frame_rate: 100 });
    assert_eq!(rgb.step(0), vec![PinCommand::Wait(16 * 208)]);
}

#[test]
fn step_skips_the_off_time_at_the_full_level() {
    let mut rgb = Rgb::new(100);
    rgb.run(SharedState { levels: [1, 2, LEVELS], frame_rate: 100 });
    assert_eq!(
        rgb.step(2),
        vec![PinCommand::High(2), PinCommand::Wait(16 * 208), PinCommand::Low(2)]
    );
}

#[test]
fn run_takes_over_the_snapshot() {
    let mut rgb = Rgb::new(100);
    rgb.run(SharedState { levels: [3, 9, 12], frame_rate: 50 });
    assert_eq!(rgb.levels(), [3, 9, 12]);
    // 1_000_000 / (3 * 50 * 16) = 416.67
    assert_eq!(rgb.tick_time(), 416);
}

#[test]
fn run_gives_the_slots_of_red_green_and_blue_in_turn() {
    let mut rgb = Rgb::new(100);
    let commands = rgb.run(SharedState::new());
    assert_eq!(
        commands,
        vec![
            PinCommand::High(0),
            PinCommand::Wait(3120),
            PinCommand::Low(0),
            PinCommand::Wait(208),
            PinCommand::High(1),
            PinCommand::Wait(832),
            PinCommand::Low(1),
            PinCommand::Wait(2496),
            PinCommand::High(2),
            PinCommand::Wait(1248),
            PinCommand::Low(2),
            PinCommand::Wait(2080),
        ]
    );
}

#[test]
fn run_is_the_three_steps_one_after_the_other() {
    let mut rgb = Rgb::new(30);
    let commands = rgb.run(SharedState { levels: [0, 16, 7], frame_rate: 70 });
    let mut steps = Vec::new();
    for led in 0..CHANNELS {
        steps.extend(rgb.step(led));
    }
    assert_eq!(commands, steps);
}

#[test]
fn pass_timing_holds_for_every_level_and_frame_rate() {
    let mut rgb = Rgb::new(100);
    for frame_rate in (1..=400u64).chain([1000, 20_833, 20_834, u64::MAX]) {
        let tick = Rgb::frame_tick_time(frame_rate);
        for level in 0..=LEVELS {
            let levels = [level, LEVELS - level, (level * 7) % LEVELS];
            let commands = rgb.run(SharedState { levels, frame_rate });
            assert_eq!(duration(&commands), 3 * LEVELS as u64 * tick);
            for led in 0..CHANNELS {
                assert_eq!(high_time(&commands, led), (levels[led] as u64 * tick, false));
                let slot = rgb.step(led);
                assert_eq!(duration(&slot), LEVELS as u64 * tick);
                assert_eq!(high_time(&slot, led), (levels[led] as u64 * tick, false));
            }
        }
    }
}

#[test]
fn pass_never_outlasts_its_frame() {
    let mut rgb = Rgb::new(100);
    for frame_rate in 1..=200u64 {
        let commands = rgb.run(SharedState { levels: [15, 4, 6], frame_rate });
        assert!(duration(&commands) * frame_rate <= 1_000_000);
    }
}

#[test]
fn drivable_wants_levels_in_range_and_a_frame_rate() {
    assert!(SharedState::new().drivable());
    assert!(SharedState { levels: [0, LEVELS, 0], frame_rate: 1 }.drivable());
    assert!(SharedState { levels: [0, 0, 0], frame_rate: u64::MAX }.drivable());
    assert!(!SharedState { levels: [0, 0, 0], frame_rate: 0 }.drivable());
    assert!(!SharedState { levels: [LEVELS + 1, 0, 0], frame_rate: 100 }.drivable());
    assert!(!SharedState { levels: [0, LEVELS + 1, 0], frame_rate: 100 }.drivable());
    assert!(!SharedState { levels: [0, 0, u32::MAX], frame_rate: 100 }.drivable());
}
