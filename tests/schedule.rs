use microbit::schedule::column_time;
use microbit::schedule::TICKS_PER_FRAME;
use microbit::schedule::TICKS_PER_ROW;
use microbit::Image;

#[test]
fn column_time_edges() {
    assert_eq!(column_time(TICKS_PER_ROW, 0), 0);
    assert_eq!(column_time(TICKS_PER_ROW, 255), TICKS_PER_ROW);
    assert_eq!(TICKS_PER_ROW, 3333);
    assert_eq!(TICKS_PER_FRAME, 5 * 3333);
}

#[test]
fn column_time_is_monotonic() {
    for b in 0..255u8 {
        assert!(column_time(TICKS_PER_ROW, b) <= column_time(TICKS_PER_ROW, b + 1));
    }
}

#[test]
fn column_time_values() {
    assert_eq!(column_time(TICKS_PER_ROW, 128), 1673);
    assert_eq!(column_time(TICKS_PER_ROW, 64), 836);
    assert_eq!(column_time(TICKS_PER_ROW, 1), 13);
}

#[test]
fn row_steps_sorted_by_time() {
    let mut rows = [[0u8; 5]; 5];
    rows[0] = [255, 128, 0, 64, 255];
    let steps = Image(rows).steps();
    let row = steps[0];
    assert_eq!(row[0], (0, 2));
    assert_eq!(row[1], (836, 3));
    assert_eq!(row[2], (1673, 1));
    assert_eq!(row[3].0, 3333);
    assert_eq!(row[4].0, 3333);
    let mut last = [row[3].1, row[4].1];
    last.sort();
    assert_eq!(last, [0, 4]);
}

#[test]
fn every_column_once_per_row() {
    let mut rows = [[0u8; 5]; 5];
    for r in 0..5 {
        for c in 0..5 {
            rows[r][c] = ((r * 37 + c * 91) % 256) as u8;
        }
    }
    let img = Image(rows);
    let steps = img.steps();
    for r in 0..5 {
        let mut seen = [false; 5];
        for k in 0..5 {
            let (t, c) = steps[r][k];
            assert!(!seen[c]);
            seen[c] = true;
            assert_eq!(t, column_time(TICKS_PER_ROW, rows[r][c]));
            if k > 0 {
                assert!(steps[r][k - 1].0 <= t);
            }
        }
    }
}
