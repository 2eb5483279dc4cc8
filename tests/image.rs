use microbit::font::glyph;
use microbit::Image;

fn numbered() -> Image {
    let mut rows = [[0u8; 5]; 5];
    for r in 0..5 {
        for c in 0..5 {
            rows[r][c] = (10 * r + c + 1) as u8;
        }
    }
    Image(rows)
}

#[test]
fn shift_left_by_zero_keeps_image() {
    let mut img = numbered();
    img.shift_left(0);
    assert_eq!(img, numbered());
}

#[test]
fn shift_left_drops_and_fills() {
    let mut img = numbered();
    img.shift_left(2);
    for r in 0..5 {
        assert_eq!(img.0[r], [(10 * r + 3) as u8, (10 * r + 4) as u8, (10 * r + 5) as u8, 0, 0]);
    }
}

#[test]
fn shift_left_by_width_blanks() {
    for n in 5..8 {
        let mut img = numbered();
        img.shift_left(n);
        assert_eq!(img, Image::blank());
    }
}

#[test]
fn column_non_blank_finds_lit_column() {
    let mut img = Image::blank();
    img.0[3][2] = 7;
    assert!(img.column_non_blank(2));
    assert!(!img.column_non_blank(0));
    assert!(!img.column_non_blank(4));
}

#[test]
fn unpack_spreads_bits() {
    let img = Image::unpack([0b10000, 0b01000, 0b00100, 0b00010, 0b10101]);
    assert_eq!(img.0[0], [255, 0, 0, 0, 0]);
    assert_eq!(img.0[1], [0, 255, 0, 0, 0]);
    assert_eq!(img.0[2], [0, 0, 255, 0, 0]);
    assert_eq!(img.0[3], [0, 0, 0, 255, 0]);
    assert_eq!(img.0[4], [255, 0, 255, 0, 255]);
}

#[test]
fn unpack_ignores_high_bits() {
    assert_eq!(Image::unpack([0b11100000; 5]), Image::blank());
}

#[test]
fn image_from_letter() {
    let img = Image::from('T');
    assert_eq!(img.0[0], [255, 255, 255, 255, 255]);
    for r in 1..5 {
        assert_eq!(img.0[r], [0, 0, 255, 0, 0]);
    }
}

#[test]
fn unknown_characters_show_question_mark() {
    assert_eq!(Image::from('é'), Image::from('?'));
    assert_eq!(Image::from('\n'), Image::from('?'));
    assert_eq!(glyph('?'), [0b01110, 0b10001, 0b00110, 0b00000, 0b00100]);
}

#[test]
fn space_is_blank() {
    assert_eq!(Image::from(' '), Image::blank());
}

#[test]
fn glyph_table_edges() {
    assert_eq!(glyph('!'), [0b01000, 0b01000, 0b01000, 0b00000, 0b01000]);
    assert_eq!(glyph('~'), [0b00000, 0b00000, 0b01100, 0b00011, 0b00000]);
    assert_eq!(glyph('\\'), [0b10000, 0b01000, 0b00100, 0b00010, 0b00001]);
}

#[test]
fn hw_rows_are_the_image_rows() {
    let img = numbered();
    assert_eq!(img.hw_rows(), img.0);
}

#[test]
fn hw_rows_v1_wiring() {
    let img = numbered();
    let hw = img.hw_rows_v1();
    assert_eq!(hw[0], [1, 3, 5, 35, 34, 33, 32, 31, 22]);
    assert_eq!(hw[1], [25, 21, 23, 2, 4, 44, 42, 0, 0]);
    assert_eq!(hw[2], [43, 45, 41, 11, 12, 13, 14, 15, 24]);
}
