use vstd::prelude::*;

verus! {

/// The first character that has a glyph of its own (space).
pub const FIRST_GLYPH: u32 = 32;

/// The last character that has a glyph of its own (tilde).
pub const LAST_GLYPH: u32 = 126;

/// The glyph shown for any character outside the printable ASCII range: a
/// question mark.
pub const UNKNOWN_GLYPH: [u8; 5] = [0b01110, 0b10001, 0b00110, 0b00000, 0b00100];

/// The 5x5 font for printable ASCII, one entry per character from space to
/// tilde. Each row is a byte whose five low bits are the row's LEDs, the
/// highest of them the leftmost.
pub const FONT: [[u8; 5]; 95] = [
    [0b00000, 0b00000, 0b00000, 0b00000, 0b00000], // ' '
    [0b01000, 0b01000, 0b01000, 0b00000, 0b01000], // '!'
    [0b01010, 0b01010, 0b00000, 0b00000, 0b00000], // '"'
    [0b01010, 0b11111, 0b01010, 0b11111, 0b01010], // '#'
    [0b01110, 0b11001, 0b01110, 0b10011, 0b01110], // '$'
    [0b11001, 0b10010, 0b00100, 0b01001, 0b10011], // '%'
    [0b01100, 0b10010, 0b01100, 0b10010, 0b01101], // '&'
    [0b01000, 0b01000, 0b00000, 0b00000, 0b00000], // "'"
    [0b00100, 0b01000, 0b01000, 0b01000, 0b00100], // '('
    [0b01000, 0b00100, 0b00100, 0b00100, 0b01000], // ')'
    [0b00000, 0b01010, 0b00100, 0b01010, 0b00000], // '*'
    [0b00000, 0b00100, 0b01110, 0b00100, 0b00000], // '+'
    [0b00000, 0b00000, 0b00000, 0b00100, 0b01000], // ','
    [0b00000, 0b00000, 0b01110, 0b00000, 0b00000], // '-'
    [0b00000, 0b00000, 0b00000, 0b01000, 0b00000], // '.'
    [0b00001, 0b00010, 0b00100, 0b01000, 0b10000], // '/'
    [0b01100, 0b10010, 0b10010, 0b10010, 0b01100], // '0'
    [0b00100, 0b01100, 0b00100, 0b00100, 0b01110], // '1'
    [0b11100, 0b00010, 0b01100, 0b10000, 0b11110], // '2'
    [0b11110, 0b00010, 0b00100, 0b10010, 0b01100], // '3'
    [0b00110, 0b01010, 0b10010, 0b11111, 0b00010], // '4'
    [0b11111, 0b10000, 0b11110, 0b00001, 0b11110], // '5'
    [0b00010, 0b00100, 0b01110, 0b10001, 0b01110], // '6'
    [0b11111, 0b00010, 0b00100, 0b01000, 0b10000], // '7'
    [0b01110, 0b10001, 0b01110, 0b10001, 0b01110], // '8'
    [0b01110, 0b10001, 0b01110, 0b00100, 0b01000], // '9'
    [0b00000, 0b01000, 0b00000, 0b01000, 0b00000], // ':'
    [0b00000, 0b00100, 0b00000, 0b00100, 0b01000], // ';'
    [0b00010, 0b00100, 0b01000, 0b00100, 0b00010], // '<'
    [0b00000, 0b01110, 0b00000, 0b01110, 0b00000], // '='
    [0b01000, 0b00100, 0b00010, 0b00100, 0b01000], // '>'
    [0b01110, 0b10001, 0b00110, 0b00000, 0b00100], // '?'
    [0b01110, 0b10001, 0b10101, 0b10011, 0b01100], // '@'
    [0b01100, 0b10010, 0b11110, 0b10010, 0b10010], // 'A'
    [0b11100, 0b10010, 0b11100, 0b10010, 0b11100], // 'B'
    [0b01110, 0b10000, 0b10000, 0b10000, 0b01110], // 'C'
    [0b11100, 0b10010, 0b10010, 0b10010, 0b11100], // 'D'
    [0b11110, 0b10000, 0b11100, 0b10000, 0b11110], // 'E'
    [0b11110, 0b10000, 0b11100, 0b10000, 0b10000], // 'F'
    [0b01110, 0b10000, 0b10011, 0b10001, 0b01110], // 'G'
    [0b10010, 0b10010, 0b11110, 0b10010, 0b10010], // 'H'
    [0b11100, 0b01000, 0b01000, 0b01000, 0b11100], // 'I'
    [0b11111, 0b00010, 0b00010, 0b10010, 0b01100], // 'J'
    [0b10010, 0b10100, 0b11000, 0b10100, 0b10010], // 'K'
    [0b10000, 0b10000, 0b10000, 0b10000, 0b11110], // 'L'
    [0b10001, 0b11011, 0b10101, 0b10001, 0b10001], // 'M'
    [0b10001, 0b11001, 0b10101, 0b10011, 0b10001], // 'N'
    [0b01100, 0b10010, 0b10010, 0b10010, 0b01100], // 'O'
    [0b11100, 0b10010, 0b11100, 0b10000, 0b10000], // 'P'
    [0b01100, 0b10010, 0b10010, 0b01100, 0b00110], // 'Q'
    [0b11100, 0b10010, 0b11100, 0b10010, 0b10001], // 'R'
    [0b01110, 0b10000, 0b01100, 0b00010, 0b11100], // 'S'
    [0b11111, 0b00100, 0b00100, 0b00100, 0b00100], // 'T'
    [0b10010, 0b10010, 0b10010, 0b10010, 0b01100], // 'U'
    [0b10001, 0b10001, 0b10001, 0b01010, 0b00100], // 'V'
    [0b10001, 0b10001, 0b10101, 0b11011, 0b10001], // 'W'
    [0b10010, 0b10010, 0b01100, 0b10010, 0b10010], // 'X'
    [0b10001, 0b01010, 0b00100, 0b00100, 0b00100], // 'Y'
    [0b11110, 0b00100, 0b01000, 0b10000, 0b11110], // 'Z'
    [0b01110, 0b01000, 0b01000, 0b01000, 0b01110], // '['
    [0b10000, 0b01000, 0b00100, 0b00010, 0b00001], // '\\'
    [0b01110, 0b00010, 0b00010, 0b00010, 0b01110], // ']'
    [0b00100, 0b01010, 0b00000, 0b00000, 0b00000], // '^'
    [0b00000, 0b00000, 0b00000, 0b00000, 0b11111], // '_'
    [0b01000, 0b00100, 0b00000, 0b00000, 0b00000], // '`'
    [0b00000, 0b01110, 0b10010, 0b10010, 0b01111], // 'a'
    [0b10000, 0b10000, 0b11100, 0b10010, 0b11100], // 'b'
    [0b00000, 0b01110, 0b10000, 0b10000, 0b01110], // 'c'
    [0b00010, 0b00010, 0b01110, 0b10010, 0b01110], // 'd'
    [0b01100, 0b10010, 0b11100, 0b10000, 0b01110], // 'e'
    [0b00110, 0b01000, 0b11100, 0b01000, 0b01000], // 'f'
    [0b01110, 0b10010, 0b01110, 0b00010, 0b01100], // 'g'
    [0b10000, 0b10000, 0b11100, 0b10010, 0b10010], // 'h'
    [0b01000, 0b00000, 0b01000, 0b01000, 0b01000], // 'i'
    [0b00010, 0b00000, 0b00010, 0b00010, 0b01100], // 'j'
    [0b10000, 0b10100, 0b11000, 0b10100, 0b10010], // 'k'
    [0b01000, 0b01000, 0b01000, 0b01000, 0b00110], // 'l'
    [0b00000, 0b11011, 0b10101, 0b10001, 0b10001], // 'm'
    [0b00000, 0b11100, 0b10010, 0b10010, 0b10010], // 'n'
    [0b00000, 0b01100, 0b10010, 0b10010, 0b01100], // 'o'
    [0b00000, 0b11100, 0b10010, 0b11100, 0b10000], // 'p'
    [0b00000, 0b01110, 0b10010, 0b01110, 0b00010], // 'q'
    [0b00000, 0b01110, 0b10000, 0b10000, 0b10000], // 'r'
    [0b00000, 0b00110, 0b01000, 0b00100, 0b11000], // 's'
    [0b01000, 0b01000, 0b01110, 0b01000, 0b00111], // 't'
    [0b00000, 0b10010, 0b10010, 0b10010, 0b01111], // 'u'
    [0b00000, 0b10001, 0b10001, 0b01010, 0b00100], // 'v'
    [0b00000, 0b10001, 0b10001, 0b10101, 0b11011], // 'w'
    [0b00000, 0b10010, 0b01100, 0b01100, 0b10010], // 'x'
    [0b00000, 0b10001, 0b01010, 0b00100, 0b11000], // 'y'
    [0b00000, 0b11110, 0b00100, 0b01000, 0b11110], // 'z'
    [0b00110, 0b00100, 0b01100, 0b00100, 0b00110], // '{'
    [0b01000, 0b01000, 0b01000, 0b01000, 0b01000], // '|'
    [0b11000, 0b01000, 0b01100, 0b01000, 0b11000], // '}'
    [0b00000, 0b00000, 0b01100, 0b00011, 0b00000], // '~'
];

/// The packed rows of the glyph for `c`.
pub open spec fn glyph_rows(c: char) -> [u8; 5] {
    let code = c as u32;
    if FIRST_GLYPH <= code && code <= LAST_GLYPH {
        FONT[code - FIRST_GLYPH]
    } else {
        UNKNOWN_GLYPH
    }
}

/// Looks up the packed rows of the glyph for `c`; characters outside the
/// printable ASCII range get the question mark.
pub fn glyph(c: char) -> (r: [u8; 5])
    ensures
        r == glyph_rows(c),
{
    let code = c as u32;
    if FIRST_GLYPH <= code && code <= LAST_GLYPH {
        FONT[(code - FIRST_GLYPH) as usize]
    } else {
        UNKNOWN_GLYPH
    }
}

} // verus!
