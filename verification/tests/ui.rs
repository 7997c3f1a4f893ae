use rgbcal::shared::{SharedFrameRate, SharedLevels};
use rgbcal::ui::{knob_to_frame_rate, Ui, UiState};
use rgbcal::{DEFAULT_FRAME_RATE, LEVELS};

#[test]
fn frame_rate_mapping_has_nonzero_floor() {
    for k in 0..LEVELS {
        let fr = knob_to_frame_rate(k);
        assert_eq!(fr, k as u64 * 10 + 10);
        assert!(fr >= 10);
    }
    assert_eq!(knob_to_frame_rate(0), 10);
    assert_eq!(knob_to_frame_rate(LEVELS - 1), 160);
}

#[test]
fn startup_shadow_matches_defaults() {
    let ui = Ui::new();
    assert_eq!(ui.state.levels, [LEVELS - 1, LEVELS - 1, LEVELS - 1]);
    assert_eq!(ui.state.frame_rate, DEFAULT_FRAME_RATE);
}

#[test]
fn button_priority_both_held_updates_red() {
    let levels_cell = SharedLevels::new();
    let rate_cell = SharedFrameRate::new();
    let mut ui = Ui::new();
    let published = ui.step(&levels_cell, &rate_cell, true, true, 3);
    assert!(published);
    // Channel 0 (red) is updated, not channel 1 or 2, and not the rate.
    assert_eq!(ui.state.levels, [3, LEVELS - 1, LEVELS - 1]);
    assert_eq!(ui.state.frame_rate, DEFAULT_FRAME_RATE);
    assert_eq!(levels_cell.get(), [3, LEVELS - 1, LEVELS - 1]);
}

#[test]
fn button_a_alone_updates_blue() {
    let levels_cell = SharedLevels::new();
    let rate_cell = SharedFrameRate::new();
    let mut ui = Ui::new();
    assert!(ui.step(&levels_cell, &rate_cell, true, false, 4));
    assert_eq!(ui.state.levels, [LEVELS - 1, LEVELS - 1, 4]);
    assert_eq!(levels_cell.get(), [LEVELS - 1, LEVELS - 1, 4]);
}

#[test]
fn button_b_alone_updates_green() {
    let levels_cell = SharedLevels::new();
    let rate_cell = SharedFrameRate::new();
    let mut ui = Ui::new();
    assert!(ui.step(&levels_cell, &rate_cell, false, true, 4));
    assert_eq!(ui.state.levels, [LEVELS - 1, 4, LEVELS - 1]);
    assert_eq!(levels_cell.get(), [LEVELS - 1, 4, LEVELS - 1]);
}

#[test]
fn no_buttons_updates_frame_rate() {
    let levels_cell = SharedLevels::new();
    let rate_cell = SharedFrameRate::new();
    let mut ui = Ui::new();
    assert!(ui.step(&levels_cell, &rate_cell, false, false, 2));
    assert_eq!(ui.state.levels, [LEVELS - 1, LEVELS - 1, LEVELS - 1]);
    assert_eq!(ui.state.frame_rate, 30);
    assert_eq!(rate_cell.get(), 30);
}

#[test]
fn repeated_equal_measurements_publish_once() {
    let levels_cell = SharedLevels::new();
    let rate_cell = SharedFrameRate::new();
    let mut ui = Ui::new();
    let mut publishes = 0;
    for _ in 0..3 {
        if ui.step(&levels_cell, &rate_cell, true, true, 5) {
            publishes += 1;
        }
    }
    // Knob level sequence [5, 5, 5]: exactly one publish.
    assert_eq!(publishes, 1);
    assert_eq!(levels_cell.get(), [5, LEVELS - 1, LEVELS - 1]);
}

#[test]
fn unchanged_frame_rate_is_not_republished() {
    let levels_cell = SharedLevels::new();
    let rate_cell = SharedFrameRate::new();
    let mut ui = Ui::new();
    // Level 9 maps to the default rate 100: nothing to publish.
    assert!(!ui.step(&levels_cell, &rate_cell, false, false, 9));
    assert_eq!(ui.state.frame_rate, DEFAULT_FRAME_RATE);
    // The shared cell still holds its startup value.
    assert_eq!(rate_cell.get(), DEFAULT_FRAME_RATE);
    // A different level publishes, an equal one after it does not.
    assert!(ui.step(&levels_cell, &rate_cell, false, false, 3));
    assert!(!ui.step(&levels_cell, &rate_cell, false, false, 3));
    assert_eq!(rate_cell.get(), 40);
}

#[test]
fn diagnostic_snapshot_renders_state() {
    let ui = Ui::new();
    assert_eq!(
        ui.state.show(),
        "\nred: 15\ngreen: 15\nblue: 15\nframe rate: 100\n"
    );
    let other = UiState {
        levels: [0, 7, 15],
        frame_rate: 10,
    };
    assert_eq!(other.show(), "\nred: 0\ngreen: 7\nblue: 15\nframe rate: 10\n");
}

#[test]
fn shared_cells_start_at_their_defaults() {
    let levels_cell = SharedLevels::new();
    let rate_cell = SharedFrameRate::new();
    assert_eq!(levels_cell.get(), [0, 0, 0]);
    assert_eq!(rate_cell.get(), 100);
    levels_cell.replace([1, 2, 3]);
    rate_cell.replace(60);
    assert_eq!(levels_cell.get(), [1, 2, 3]);
    assert_eq!(rate_cell.get(), 60);
}
