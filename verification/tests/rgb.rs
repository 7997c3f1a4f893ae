use rgbcal::rgb::{Rgb, TICK_TIME_MAX};
use rgbcal::shared::{SharedFrameRate, SharedLevels};
use rgbcal::ui::Ui;
use rgbcal::LEVELS;

#[test]
fn tick_time_for_slowest_rate() {
    // Knob level 0 maps to frame rate 10: 1_000_000 / (3 * 10 * 16) = 2083.
    assert_eq!(Rgb::frame_tick_time(10), 2083);
    assert_eq!(Rgb::frame_tick_time(10), TICK_TIME_MAX);
}

#[test]
fn tick_time_for_other_rates() {
    assert_eq!(Rgb::frame_tick_time(100), 208); // the startup default
    assert_eq!(Rgb::frame_tick_time(160), 130); // the fastest in-band rate
    assert_eq!(Rgb::frame_tick_time(1), 20_833);
}

#[test]
fn new_cycle_state_starts_dark_with_default_tick() {
    let rate_cell = SharedFrameRate::new();
    let levels_cell = SharedLevels::new();
    let mut rgb = Rgb::new(&rate_cell);
    let (lv, fr) = rgb.begin_frame(&levels_cell, &rate_cell);
    assert_eq!(lv, [0, 0, 0]);
    assert_eq!(fr, 100);
    for led in 0..3 {
        let (on, off) = rgb.step_plan(led);
        // A dark channel skips its on-wait entirely; the cycle is all off.
        assert_eq!(on, 0);
        assert_eq!(off, (LEVELS as u64) * 208);
    }
}

#[test]
fn cycle_length_is_invariant_across_levels() {
    let rate_cell = SharedFrameRate::new();
    let levels_cell = SharedLevels::new();
    let mut rgb = Rgb::new(&rate_cell);
    levels_cell.replace([0, 7, 15]);
    let (lv, fr) = rgb.begin_frame(&levels_cell, &rate_cell);
    assert_eq!(lv, [0, 7, 15]);
    let tick = Rgb::frame_tick_time(fr);
    for led in 0..3 {
        let (on, off) = rgb.step_plan(led);
        assert_eq!(on, lv[led] as u64 * tick);
        assert_eq!(on + off, LEVELS as u64 * tick);
    }
}

#[test]
fn snapshot_is_stable_within_a_cycle() {
    let rate_cell = SharedFrameRate::new();
    let levels_cell = SharedLevels::new();
    let mut rgb = Rgb::new(&rate_cell);
    levels_cell.replace([1, 2, 3]);
    let (lv, _) = rgb.begin_frame(&levels_cell, &rate_cell);
    assert_eq!(lv, [1, 2, 3]);
    // A concurrent publish between steps does not disturb this cycle's plan.
    let before = rgb.step_plan(0);
    levels_cell.replace([9, 9, 9]);
    assert_eq!(rgb.step_plan(0), before);
    // The next cycle picks the new vector up.
    let (lv2, _) = rgb.begin_frame(&levels_cell, &rate_cell);
    assert_eq!(lv2, [9, 9, 9]);
}

#[test]
fn output_follows_knob_zero_end_to_end() {
    // Knob level 0 with no buttons held: new rate 0 * 10 + 10 = 10, and the
    // next output cycle derives tick 1_000_000 / (3 * 10 * 16) = 2083.
    let rate_cell = SharedFrameRate::new();
    let levels_cell = SharedLevels::new();
    let mut ui = Ui::new();
    let published = ui.step(&levels_cell, &rate_cell, false, false, 0);
    assert!(published);
    assert_eq!(ui.state.frame_rate, 10);
    let mut rgb = Rgb::new(&rate_cell);
    let (_, fr) = rgb.begin_frame(&levels_cell, &rate_cell);
    assert_eq!(fr, 10);
    let (on, off) = rgb.step_plan(0);
    assert_eq!(on + off, LEVELS as u64 * 2083);
}
