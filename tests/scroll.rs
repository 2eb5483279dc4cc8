use microbit::scroll::scroll_frames;
use microbit::Image;

fn column(img: &Image, c: usize) -> [u8; 5] {
    [img.0[0][c], img.0[1][c], img.0[2][c], img.0[3][c], img.0[4][c]]
}

#[test]
fn empty_text_scrolls_blank() {
    let frames = scroll_frames("");
    assert_eq!(frames.len(), 4);
    for f in frames {
        assert_eq!(f, Image::blank());
    }
}

#[test]
fn single_letter_frames() {
    // 'I' has its leftmost three columns lit and two blank ones on the right.
    let glyph = Image::from('I');
    let frames = scroll_frames("I");
    assert_eq!(frames.len(), 3 + 1 + 4);
    for i in 0..3 {
        assert_eq!(column(&frames[i], 4), column(&glyph, i));
    }
    assert_eq!(column(&frames[3], 4), [0; 5]);
    assert_eq!(column(&frames[3], 1), column(&glyph, 0));
    assert_eq!(column(&frames[3], 3), column(&glyph, 2));
    assert_eq!(frames[7], Image::blank());
}

#[test]
fn blank_left_column_is_skipped() {
    // '1' has a blank leftmost column and lit columns up to the fourth.
    let glyph = Image::from('1');
    assert!(!glyph.column_non_blank(0));
    let frames = scroll_frames("1");
    assert_eq!(frames.len(), 3 + 1 + 4);
    assert_eq!(column(&frames[0], 4), column(&glyph, 1));
    assert_eq!(column(&frames[2], 4), column(&glyph, 3));
}

#[test]
fn space_keeps_three_columns() {
    let frames = scroll_frames(" ");
    assert_eq!(frames.len(), 2 + 1 + 4);
    for f in frames {
        assert_eq!(f, Image::blank());
    }
}

#[test]
fn two_letters_follow_each_other() {
    let frames = scroll_frames("HI");
    // 'H' keeps columns 0..4, 'I' columns 0..3, each followed by a space.
    assert_eq!(frames.len(), 4 + 1 + 3 + 1 + 4);
    let h = Image::from('H');
    let i = Image::from('I');
    assert_eq!(column(&frames[4], 0), column(&h, 0));
    assert_eq!(column(&frames[5], 4), column(&i, 0));
}
