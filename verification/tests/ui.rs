use rgbcal::knob::Knob;
use rgbcal::levelmeter::{LevelMeter, GRID_HEIGHT};
use rgbcal::state::SharedState;
use rgbcal::ui::{ButtonPressed, Control, Ui, UiState};
use rgbcal::LEVELS;

fn fresh() -> Ui {
    Ui::new(Knob::new(), LevelMeter::new())
}

/// A sample that the knob reads as the given level.
fn sample_for(level: u32) -> i16 {
    ((level as i32 + 2) * 10_000 / 18 + 1) as i16
}

#[test]
fn sample_for_gives_the_level_asked_for() {
    let knob = Knob::new();
    for level in 0..LEVELS {
        assert_eq!(knob.measure(sample_for(level)), level);
    }
}

#[test]
fn default_state_is_white_at_a_hundred_frames() {
    let state = UiState::default();
    assert_eq!(state.levels(), [15, 4, 6]);
    assert_eq!(state.frame_rate(), 100);
    assert_eq!(fresh().state(), state);
}

#[test]
fn shared_state_starts_as_the_default_state() {
    let shared = SharedState::new();
    assert_eq!(shared.levels, [15, 4, 6]);
    assert_eq!(shared.frame_rate, 100);
    assert_eq!(UiState::default().snapshot(), shared);
}

#[test]
fn show_reports_the_levels_and_the_frame_rate() {
    assert_eq!(UiState::default().show(), "\nred: 15\ngreen: 4\nblue: 6\nframe rate: 100\n");
}

#[test]
fn button_state_reads_pressed_as_low() {
    let ui = fresh();
    assert_eq!(ui.button_state(false, false), ButtonPressed::Neither);
    assert_eq!(ui.button_state(true, false), ButtonPressed::A);
    assert_eq!(ui.button_state(false, true), ButtonPressed::B);
    assert_eq!(ui.button_state(true, true), ButtonPressed::Both);
}

#[test]
fn each_button_combination_selects_its_own_control() {
    let selected = [
        fresh().run(0, false, false).control,
        fresh().run(0, true, false).control,
        fresh().run(0, false, true).control,
        fresh().run(0, true, true).control,
    ];
    assert_eq!(
        selected,
        [Control::FrameRate, Control::BlueLed, Control::GreenLed, Control::RedLed]
    );
    for first in 0..selected.len() {
        for second in 0..first {
            assert_ne!(selected[first], selected[second]);
        }
    }
}

#[test]
fn frame_rate_from_level_runs_from_ten_to_a_hundred_and_sixty() {
    let ui = fresh();
    assert_eq!(ui.frame_rate_from_level(0), 10);
    assert_eq!(ui.frame_rate_from_level(9), 100);
    assert_eq!(ui.frame_rate_from_level(LEVELS - 1), 160);
}

#[test]
fn frame_rate_from_level_is_monotonic_and_repeatable() {
    let ui = fresh();
    let mut previous = 0;
    for level in 0..LEVELS {
        let frame_rate = ui.frame_rate_from_level(level);
        assert_eq!(frame_rate, ui.frame_rate_from_level(level));
        assert_eq!(frame_rate, previous + 10);
        previous = frame_rate;
    }
}

#[test]
fn frame_rate_from_level_does_not_overflow() {
    assert_eq!(fresh().frame_rate_from_level(u32::MAX), 42_949_672_960);
}

#[test]
fn run_edits_green_with_button_b() {
    let mut ui = fresh();
    let update = ui.run(sample_for(11), false, true);
    assert_eq!(update.control, Control::GreenLed);
    assert_eq!(ui.state().levels(), [15, 11, 6]);
    assert_eq!(ui.state().frame_rate(), 100);
    assert_eq!(update.store, Some(SharedState { levels: [15, 11, 6], frame_rate: 100 }));
    assert_eq!(
        update.report.as_deref(),
        Some("\nred: 15\ngreen: 11\nblue: 6\nframe rate: 100\n")
    );
}

#[test]
fn run_edits_blue_with_button_a() {
    let mut ui = fresh();
    let update = ui.run(sample_for(0), true, false);
    assert_eq!(update.control, Control::BlueLed);
    assert_eq!(ui.state().levels(), [15, 4, 0]);
    assert_eq!(ui.state().frame_rate(), 100);
    assert_eq!(update.store, Some(SharedState { levels: [15, 4, 0], frame_rate: 100 }));
    assert_eq!(
        update.report.as_deref(),
        Some("\nred: 15\ngreen: 4\nblue: 0\nframe rate: 100\n")
    );
}

#[test]
fn run_edits_the_frame_rate_with_no_button() {
    let mut ui = fresh();
    let update = ui.run(sample_for(2), false, false);
    assert_eq!(update.control, Control::FrameRate);
    assert_eq!(ui.state().levels(), [15, 4, 6]);
    assert_eq!(ui.state().frame_rate(), 30);
    assert_eq!(update.store, Some(SharedState { levels: [15, 4, 6], frame_rate: 30 }));
    assert_eq!(
        update.report.as_deref(),
        Some("\nred: 15\ngreen: 4\nblue: 6\nframe rate: 30\n")
    );
}

#[test]
fn run_reports_nothing_when_the_value_is_as_it_was() {
    let mut ui = fresh();
    // Level 9 selects 100 frames per second, which is the frame rate held.
    let update = ui.run(sample_for(9), false, false);
    assert_eq!(update.control, Control::FrameRate);
    assert_eq!(update.store, None);
    assert_eq!(update.report, None);
    assert_eq!(ui.state(), UiState::default());
    // Level 15 is the level of red held.
    let update = ui.run(i16::MAX, true, true);
    assert_eq!(update.store, None);
    assert_eq!(update.report, None);
    assert_eq!(ui.state(), UiState::default());
}

#[test]
fn run_twice_with_one_reading_changes_nothing_the_second_time() {
    for (a_low, b_low) in [(false, false), (true, false), (false, true), (true, true)] {
        for level in 0..LEVELS {
            let mut ui = fresh();
            ui.run(sample_for(level), a_low, b_low);
            let state = ui.state();
            let update = ui.run(sample_for(level), a_low, b_low);
            assert_eq!(update.store, None);
            assert_eq!(update.report, None);
            assert_eq!(ui.state(), state);
        }
    }
}

#[test]
fn run_selects_afresh_in_every_iteration() {
    let mut ui = fresh();
    ui.run(sample_for(3), true, true);
    ui.run(sample_for(3), true, false);
    ui.run(sample_for(12), false, true);
    ui.run(sample_for(12), false, false);
    assert_eq!(ui.state().levels(), [3, 12, 3]);
    assert_eq!(ui.state().frame_rate(), 130);
}

#[test]
fn run_redraws_the_readout_in_every_iteration() {
    let mut ui = fresh();
    let lit = |ui: &Ui, column: usize| {
        let frame = ui.frame();
        (0..GRID_HEIGHT).filter(|row| frame.is_set(column, *row)).count()
    };
    assert_eq!([lit(&ui, 0), lit(&ui, 1), lit(&ui, 2), lit(&ui, 3), lit(&ui, 4)], [0; 5]);
    // Nothing changes, and still the readout is drawn.
    let update = ui.run(sample_for(9), false, false);
    assert_eq!(update.store, None);
    assert_eq!(update.frame, ui.frame());
    assert_eq!(update.hold_millis, 50);
    assert_eq!([lit(&ui, 0), lit(&ui, 1), lit(&ui, 2), lit(&ui, 3), lit(&ui, 4)], [5, 2, 2, 0, 3]);
    ui.run(sample_for(0), true, true);
    ui.run(sample_for(15), false, false);
    assert_eq!([lit(&ui, 0), lit(&ui, 1), lit(&ui, 2), lit(&ui, 3), lit(&ui, 4)], [0, 2, 2, 0, 5]);
}

#[test]
fn run_keeps_the_state_in_range_for_every_reading() {
    let mut ui = fresh();
    let mut sample = i16::MIN;
    let mut turn = 0;
    loop {
        ui.run(sample, turn % 2 == 1, turn % 4 >= 2);
        let state = ui.state();
        assert!(state.levels().iter().all(|level| *level < LEVELS));
        assert!(10 <= state.frame_rate() && state.frame_rate() <= 160);
        assert_eq!(state.frame_rate() % 10, 0);
        turn += 1;
        match sample.checked_add(97) {
            Some(next) => sample = next,
            None => break,
        }
    }
}
