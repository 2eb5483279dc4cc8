use vstd::prelude::*;

use crate::font::glyph;
use crate::font::glyph_rows;

verus! {

/// Number of logical rows of an image.
pub const ROWS: usize = 5;

/// Number of logical columns of an image.
pub const COLS: usize = 5;

/// A 5x5 grid of brightness values: 0 is off, 255 fully on, and values in
/// between are lit for a proportional part of each row's scan window.
#[derive(Clone, Copy, Debug, PartialEq, Eq)]
pub struct Image(pub [[u8; 5]; 5]);

/// The image with every LED off.
pub open spec fn blank_image() -> Image {
    Image(
        [
            [0u8, 0u8, 0u8, 0u8, 0u8],
            [0u8, 0u8, 0u8, 0u8, 0u8],
            [0u8, 0u8, 0u8, 0u8, 0u8],
            [0u8, 0u8, 0u8, 0u8, 0u8],
            [0u8, 0u8, 0u8, 0u8, 0u8],
        ],
    )
}

/// The image after shifting every row `n` columns to the left, with zeros
/// coming in from the right.
pub open spec fn shifted(img: Image, n: int, r: int, c: int) -> u8 {
    if c + n < 5 {
        img.0[r][c + n]
    } else {
        0
    }
}

/// Shifting by the width of the image or more leaves every LED off.
pub proof fn lemma_shift_by_width_blanks(img: Image, n: int)
    requires
        n >= 5,
    ensures
        forall|r: int, c: int| 0 <= r < 5 && 0 <= c < 5 ==> #[trigger] shifted(img, n, r, c) == 0,
{
}

/// The bit of a packed row that stands for column `c` (the leftmost column is
/// the highest of the five low bits).
pub open spec fn column_mask(c: int) -> u8 {
    if c == 0 {
        0b10000
    } else if c == 1 {
        0b01000
    } else if c == 2 {
        0b00100
    } else if c == 3 {
        0b00010
    } else {
        0b00001
    }
}

/// The brightness of column `c` in a packed row: full where its bit is set.
pub open spec fn unpacked_pixel(bits: u8, c: int) -> u8 {
    if bits & column_mask(c) != 0 {
        255
    } else {
        0
    }
}

/// One packed row spread out to five brightness values.
pub open spec fn unpacked_row(bits: u8) -> [u8; 5] {
    [
        unpacked_pixel(bits, 0),
        unpacked_pixel(bits, 1),
        unpacked_pixel(bits, 2),
        unpacked_pixel(bits, 3),
        unpacked_pixel(bits, 4),
    ]
}

/// The image whose rows are the packed rows of `data` spread out.
pub open spec fn unpacked(data: [u8; 5]) -> Image {
    Image(
        [
            unpacked_row(data[0]),
            unpacked_row(data[1]),
            unpacked_row(data[2]),
            unpacked_row(data[3]),
            unpacked_row(data[4]),
        ],
    )
}

/// Whether column `c` of the image has a lit LED in some row.
pub open spec fn column_lit(img: Image, c: int) -> bool {
    exists|r: int| 0 <= r < 5 && #[trigger] img.0[r][c] != 0
}

/// Spreads one packed row out to five brightness values.
fn unpack_row(bits: u8) -> (r: [u8; 5])
    ensures
        r == unpacked_row(bits),
{
    [
        if bits & 0b10000 != 0 { 255 } else { 0 },
        if bits & 0b01000 != 0 { 255 } else { 0 },
        if bits & 0b00100 != 0 { 255 } else { 0 },
        if bits & 0b00010 != 0 { 255 } else { 0 },
        if bits & 0b00001 != 0 { 255 } else { 0 },
    ]
}

/// How the older 3x9 board wires the logical 5x5 grid: each of its three
/// hardware rows drives nine LEDs, and two places of the middle row are not
/// wired to any LED.
pub open spec fn v1_layout(img: Image) -> [[u8; 9]; 3] {
    [
        [img.0[0][0], img.0[0][2], img.0[0][4], img.0[3][4], img.0[3][3], img.0[3][2], img.0[3][1], img.0[3][0], img.0[2][1]],
        [img.0[2][4], img.0[2][0], img.0[2][2], img.0[0][1], img.0[0][3], img.0[4][3], img.0[4][1], 0, 0],
        [img.0[4][2], img.0[4][4], img.0[4][0], img.0[1][0], img.0[1][1], img.0[1][2], img.0[1][3], img.0[1][4], img.0[2][3]],
    ]
}

impl Image {
    /// The image with every LED off.
    pub fn blank() -> (r: Image)
        ensures
            r == blank_image(),
            forall|i: int, j: int| 0 <= i < 5 && 0 <= j < 5 ==> #[trigger] r.0[i][j] == 0,
    {
        Image(
            [
                [0u8, 0u8, 0u8, 0u8, 0u8],
                [0u8, 0u8, 0u8, 0u8, 0u8],
                [0u8, 0u8, 0u8, 0u8, 0u8],
                [0u8, 0u8, 0u8, 0u8, 0u8],
                [0u8, 0u8, 0u8, 0u8, 0u8],
            ],
        )
    }

    /// Shifts every row `n` columns to the left: the leftmost `n` columns
    /// are dropped and the rightmost `n` become 0.
    pub fn shift_left(&mut self, n: usize)
        ensures
            forall|i: int, j: int|
                0 <= i < 5 && 0 <= j < 5 ==> #[trigger] final(self).0[i][j] == shifted(
                    *old(self),
                    n as int,
                    i,
                    j,
                ),
    {
        let ghost orig = *self;
        let mut r: usize = 0;
        while r < ROWS
            invariant
                r <= 5,
                forall|i: int, j: int|
                    0 <= i < r && 0 <= j < 5 ==> #[trigger] self.0[i][j] == shifted(orig, n as int, i, j),
                forall|i: int| r <= i < 5 ==> #[trigger] self.0[i] == orig.0[i],
            decreases 5 - r,
        {
            let old_row = self.0[r];
            let mut row: [u8; 5] = [0u8; 5];
            let mut c: usize = 0;
            while c < COLS
                invariant
                    c <= 5,
                    old_row == orig.0[r as int],
                    forall|j: int| 0 <= j < c ==> #[trigger] row[j] == shifted(orig, n as int, r as int, j),
                decreases 5 - c,
            {
                if n < COLS - c {
                    row[c] = old_row[c + n];
                } else {
                    row[c] = 0;
                }
                c = c + 1;
            }
            self.0[r] = row;
            r = r + 1;
        }
    }

    /// Whether any LED of column `i` is lit.
    pub fn column_non_blank(&self, i: usize) -> (r: bool)
        requires
            i < 5,
        ensures
            r == column_lit(*self, i as int),
    {
        let mut k: usize = 0;
        while k < ROWS
            invariant
                k <= 5,
                i < 5,
                forall|j: int| 0 <= j < k ==> #[trigger] self.0[j][i as int] == 0,
            decreases 5 - k,
        {
            if self.0[k][i] != 0 {
                return true;
            }
            k = k + 1;
        }
        false
    }

    /// Unpacks a compressed image, where each row is a byte whose five low
    /// bits tell which LEDs are fully on (the highest bit is the leftmost
    /// column) and the others are off.
    pub fn unpack(data: [u8; 5]) -> (r: Image)
        ensures
            r == unpacked(data),
    {
        Image(
            [
                unpack_row(data[0]),
                unpack_row(data[1]),
                unpack_row(data[2]),
                unpack_row(data[3]),
                unpack_row(data[4]),
            ],
        )
    }

    /// The rows as the hardware scans them. On this board the LED matrix is
    /// wired as the image is laid out, so they are the image's own rows.
    pub fn hw_rows(&self) -> (r: [[u8; 5]; 5])
        ensures
            r == self.0,
    {
        self.0
    }
    /// The rows as the older 3x9 board scans them.
    pub fn hw_rows_v1(&self) -> (r: [[u8; 9]; 3])
        ensures
            r == v1_layout(*self),
    {
        [
            [self.0[0][0], self.0[0][2], self.0[0][4], self.0[3][4], self.0[3][3], self.0[3][2], self.0[3][1], self.0[3][0], self.0[2][1]],
            [self.0[2][4], self.0[2][0], self.0[2][2], self.0[0][1], self.0[0][3], self.0[4][3], self.0[4][1], 0, 0],
            [self.0[4][2], self.0[4][4], self.0[4][0], self.0[1][0], self.0[1][1], self.0[1][2], self.0[1][3], self.0[1][4], self.0[2][3]],
        ]
    }
}

impl From<char> for Image {
    /// The glyph of `c` in the built-in font.
    fn from(c: char) -> (r: Image) {
        Image::unpack(glyph(c))
    }
}

impl vstd::std_specs::convert::FromSpecImpl<char> for Image {
    open spec fn obeys_from_spec() -> bool {
        true
    }

    open spec fn from_spec(c: char) -> Image {
        unpacked(glyph_rows(c))
    }
}

} // verus!
