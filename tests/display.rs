use microbit::display::should_rerun;
use microbit::schedule::TICKS_PER_ROW;
use microbit::DisplayState;
use microbit::Image;

fn first_row_image() -> Image {
    let mut rows = [[0u8; 5]; 5];
    rows[0] = [255, 128, 0, 64, 255];
    Image(rows)
}

#[test]
fn new_state_starts_on_last_row() {
    let state = DisplayState::<5, 5>::new();
    assert_eq!(state.row, 4);
    assert_eq!(state.step, 5);
    assert_eq!(state.steps, Image::blank().steps());
}

#[test]
fn first_interrupt_enters_row_zero_and_swaps() {
    let mut state = DisplayState::<5, 5>::new();
    state.show(&first_row_image());
    assert_eq!(state.steps, Image::blank().steps());
    let update = state.on_interrupt(0);
    assert_eq!(state.steps, first_row_image().steps());
    let change = update.row_change.expect("row change");
    assert_eq!(change.previous_row, 4);
    assert_eq!(change.row, 0);
    assert_eq!(change.cols_on.len(), 4);
    assert_eq!(change.cols_on[0], 3);
    assert_eq!(change.cols_on[1], 1);
    let mut last = [change.cols_on[2], change.cols_on[3]];
    last.sort();
    assert_eq!(last, [0, 4]);
    assert!(update.cols_off.is_empty());
    assert_eq!(state.step, 1);
    assert_eq!(update.compare, 836);
}

#[test]
fn interrupt_switches_due_columns_off() {
    let mut state = DisplayState::<5, 5>::new();
    state.show(&first_row_image());
    state.on_interrupt(0);
    let update = state.on_interrupt(900);
    assert!(update.row_change.is_none());
    assert_eq!(update.cols_off, vec![3]);
    assert_eq!(update.compare, 1673);
    let update = state.on_interrupt(3000);
    assert_eq!(update.cols_off, vec![1]);
    assert_eq!(update.compare, 3333);
}

#[test]
fn late_interrupt_switches_several_columns_off() {
    let mut state = DisplayState::<5, 5>::new();
    state.show(&first_row_image());
    state.on_interrupt(0);
    let update = state.on_interrupt(3332);
    assert_eq!(update.cols_off, vec![3, 1]);
    assert_eq!(state.step, 3);
    assert_eq!(update.compare, 3333);
}

#[test]
fn dark_row_sets_compare_to_row_end() {
    let mut state = DisplayState::<5, 5>::new();
    state.show(&first_row_image());
    state.on_interrupt(0);
    let update = state.on_interrupt(TICKS_PER_ROW);
    let change = update.row_change.expect("row change");
    assert_eq!(change.previous_row, 0);
    assert_eq!(change.row, 1);
    assert!(change.cols_on.is_empty());
    assert!(update.cols_off.is_empty());
    assert_eq!(state.step, 5);
    assert_eq!(update.compare, 2 * TICKS_PER_ROW);
}

#[test]
fn publish_mid_frame_waits_for_row_zero() {
    let mut state = DisplayState::<5, 5>::new();
    state.show(&first_row_image());
    state.on_interrupt(0);
    state.on_interrupt(TICKS_PER_ROW);
    let active = state.steps;
    let mut full = [[0u8; 5]; 5];
    full[2] = [255; 5];
    state.show(&Image(full));
    state.on_interrupt(2 * TICKS_PER_ROW + 5);
    assert_eq!(state.row, 2);
    assert_eq!(state.steps, active);
    state.on_interrupt(4 * TICKS_PER_ROW);
    assert_eq!(state.steps, active);
    state.on_interrupt(10);
    assert_eq!(state.row, 0);
    assert_eq!(state.steps, Image(full).steps());
}

#[test]
fn time_is_counted_from_row_start() {
    let mut state = DisplayState::<5, 5>::new();
    state.on_interrupt(2 * TICKS_PER_ROW + 17);
    assert_eq!(state.time(2 * TICKS_PER_ROW + 40), 40);
}

#[test]
fn rerun_only_when_compare_passed_and_nothing_pending() {
    assert!(should_rerun(100, 100, false));
    assert!(should_rerun(101, 100, false));
    assert!(!should_rerun(99, 100, false));
    assert!(!should_rerun(101, 100, true));
}

#[test]
fn frame_timing_per_board() {
    let v2 = DisplayState::<5, 5>::new();
    assert_eq!(v2.ticks_per_row, TICKS_PER_ROW);
    assert_eq!(v2.ticks_per_frame(), 16665);
    let v1 = DisplayState::<3, 9>::new();
    assert_eq!(v1.ticks_per_row, 5555);
    assert_eq!(v1.ticks_per_frame(), 16665);
    assert_eq!(v1.row, 2);
    assert_eq!(v1.step, 9);
}

#[test]
fn older_board_scans_its_wiring() {
    let mut img = Image::blank();
    // Logical (3, 4) is the fourth LED of the first hardware row.
    img.0[3][4] = 255;
    // Logical (2, 3) is the last LED of the third hardware row.
    img.0[2][3] = 255;
    let mut state = DisplayState::<3, 9>::new();
    state.show(&img);
    let update = state.on_interrupt(0);
    let change = update.row_change.expect("row change");
    assert_eq!(change.previous_row, 2);
    assert_eq!(change.row, 0);
    assert_eq!(change.cols_on, vec![3]);
    assert_eq!(state.step, 8);
    assert_eq!(update.compare, 5555);
    let update = state.on_interrupt(2 * 5555 + 1);
    let change = update.row_change.expect("row change");
    assert_eq!(change.row, 2);
    assert_eq!(change.cols_on, vec![8]);
    assert_eq!(update.compare, 3 * 5555);
}
