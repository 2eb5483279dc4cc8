use vstd::prelude::*;

use crate::font::glyph_rows;
use crate::image::blank_image;
use crate::image::column_lit;
use crate::image::unpacked;
use crate::image::Image;
use crate::image::COLS;
use crate::image::ROWS;

verus! {

/// How many blank columns follow the last character, so that it scrolls away.
pub const TRAILING_SHIFTS: usize = 4;

/// A row moved one column to the left with `v` coming in on the right.
pub open spec fn pushed_row(row: [u8; 5], v: u8) -> [u8; 5] {
    [row[1], row[2], row[3], row[4], v]
}

/// The image moved one column to the left with column `i` of `g` coming in
/// on the right.
pub open spec fn pushed(img: Image, g: Image, i: int) -> Image {
    Image(
        [
            pushed_row(img.0[0], g.0[0][i]),
            pushed_row(img.0[1], g.0[1][i]),
            pushed_row(img.0[2], g.0[2][i]),
            pushed_row(img.0[3], g.0[3][i]),
            pushed_row(img.0[4], g.0[4][i]),
        ],
    )
}

/// The image moved one column to the left with a blank column coming in.
pub open spec fn spaced(img: Image) -> Image {
    Image(
        [
            pushed_row(img.0[0], 0),
            pushed_row(img.0[1], 0),
            pushed_row(img.0[2], 0),
            pushed_row(img.0[3], 0),
            pushed_row(img.0[4], 0),
        ],
    )
}

/// The first column of a glyph that is scrolled in: a blank leftmost column
/// is skipped.
pub open spec fn kern_start(g: Image) -> int {
    if column_lit(g, 0) {
        0
    } else {
        1
    }
}

/// One past the last column of a glyph that is scrolled in: blank columns on
/// the right are skipped, but no more than two.
pub open spec fn kern_end(g: Image) -> int {
    if column_lit(g, 4) {
        5
    } else if column_lit(g, 3) {
        4
    } else {
        3
    }
}

/// The frames shown while columns `i` up to `end` of `g` come in, starting
/// from `img`.
pub open spec fn column_frames(img: Image, g: Image, i: int, end: int) -> Seq<Image>
    decreases end - i,
{
    if i >= end {
        Seq::empty()
    } else {
        seq![pushed(img, g, i)] + column_frames(pushed(img, g, i), g, i + 1, end)
    }
}

/// The image after columns `i` up to `end` of `g` came in.
pub open spec fn after_columns(img: Image, g: Image, i: int, end: int) -> Image
    decreases end - i,
{
    if i >= end {
        img
    } else {
        after_columns(pushed(img, g, i), g, i + 1, end)
    }
}

/// The frames shown for one glyph: its kept columns, then a blank one.
pub open spec fn glyph_frames(img: Image, g: Image) -> Seq<Image> {
    let last = after_columns(img, g, kern_start(g), kern_end(g));
    column_frames(img, g, kern_start(g), kern_end(g)) + seq![spaced(last)]
}

/// The image after one glyph scrolled in.
pub open spec fn after_glyph(img: Image, g: Image) -> Image {
    spaced(after_columns(img, g, kern_start(g), kern_end(g)))
}

/// The image of character `c`.
pub open spec fn char_image(c: char) -> Image {
    unpacked(glyph_rows(c))
}

/// The image on display after the characters of `text` scrolled in, from a
/// blank display.
pub open spec fn scrolled_image(text: Seq<char>) -> Image
    decreases text.len(),
{
    if text.len() == 0 {
        blank_image()
    } else {
        after_glyph(scrolled_image(text.drop_last()), char_image(text.last()))
    }
}

/// The frames shown while the characters of `text` scroll in.
pub open spec fn scroll_in_frames(text: Seq<char>) -> Seq<Image>
    decreases text.len(),
{
    if text.len() == 0 {
        Seq::empty()
    } else {
        scroll_in_frames(text.drop_last()) + glyph_frames(
            scrolled_image(text.drop_last()),
            char_image(text.last()),
        )
    }
}

/// The frames shown while `img` scrolls away by `n` blank columns.
pub open spec fn trailing_frames(img: Image, n: nat) -> Seq<Image>
    decreases n,
{
    if n == 0 {
        Seq::empty()
    } else {
        seq![spaced(img)] + trailing_frames(spaced(img), (n - 1) as nat)
    }
}

/// The image after `n` blank columns came in.
pub open spec fn trailed(img: Image, n: nat) -> Image
    decreases n,
{
    if n == 0 {
        img
    } else {
        trailed(spaced(img), (n - 1) as nat)
    }
}

/// Every frame shown while `text` scrolls across the display.
pub open spec fn scroll_sequence(text: Seq<char>) -> Seq<Image> {
    scroll_in_frames(text) + trailing_frames(scrolled_image(text), TRAILING_SHIFTS as nat)
}

/// Moves `img` one column to the left and fills the rightmost column with
/// column `i` of `g`.
fn push_column(img: &mut Image, g: &Image, i: usize)
    requires
        i < 5,
    ensures
        *final(img) == pushed(*old(img), *g, i as int),
{
    let ghost orig = *img;
    img.shift_left(1);
    let mut r: usize = 0;
    while r < ROWS
        invariant
            r <= 5,
            i < 5,
            forall|k: int| 0 <= k < r ==> #[trigger] img.0[k] =~= pushed_row(orig.0[k], g.0[k][i as int]),
            forall|k: int, j: int| r <= k < 5 && 0 <= j < 4 ==> #[trigger] img.0[k][j] == orig.0[k][j + 1],
        decreases 5 - r,
    {
        let mut row = img.0[r];
        row[COLS - 1] = g.0[r][i];
        img.0[r] = row;
        r = r + 1;
    }
    assert(img.0 =~= pushed(orig, *g, i as int).0);
}

/// Moves `img` one column to the left with a blank column coming in.
fn push_blank(img: &mut Image)
    ensures
        *final(img) == spaced(*old(img)),
{
    let ghost orig = *img;
    img.shift_left(1);
    assert forall|k: int| 0 <= k < 5 implies #[trigger] img.0[k] =~= pushed_row(orig.0[k], 0) by {}
    assert(img.0 =~= spaced(orig).0);
}


/// Taking one more column of a glyph adds one frame at the end.
proof fn lemma_column_frames_extend(img: Image, g: Image, i: int, end: int)
    requires
        i <= end,
    ensures
        column_frames(img, g, i, end + 1) == column_frames(img, g, i, end) + seq![pushed(after_columns(img, g, i, end), g, end)],
        after_columns(img, g, i, end + 1) == pushed(after_columns(img, g, i, end), g, end),
    decreases end - i,
{
    if i < end {
        lemma_column_frames_extend(pushed(img, g, i), g, i + 1, end);
        assert(column_frames(img, g, i, end + 1) =~= column_frames(img, g, i, end) + seq![pushed(after_columns(img, g, i, end), g, end)]);
    } else {
        assert(column_frames(pushed(img, g, i), g, i + 1, end + 1) == Seq::<Image>::empty());
        assert(after_columns(pushed(img, g, i), g, i + 1, end + 1) == pushed(img, g, i));
        assert(column_frames(img, g, i, end + 1) =~= seq![pushed(img, g, i)]);
    }
}

/// Taking one more blank column adds one frame at the end.
proof fn lemma_trailing_frames_extend(img: Image, n: nat)
    ensures
        trailing_frames(img, n + 1) == trailing_frames(img, n) + seq![spaced(trailed(img, n))],
        trailed(img, n + 1) == spaced(trailed(img, n)),
    decreases n,
{
    if n > 0 {
        lemma_trailing_frames_extend(spaced(img), (n - 1) as nat);
        assert(trailing_frames(img, n + 1) =~= trailing_frames(img, n) + seq![spaced(trailed(img, n))]);
    } else {
        assert(trailing_frames(spaced(img), 0) == Seq::<Image>::empty());
        assert(trailed(spaced(img), 0) == spaced(img));
        assert(trailing_frames(img, 1) =~= seq![spaced(img)]);
    }
}

/// Every image shown while `text` scrolls across the display from the
/// right, one column per frame: for each character its glyph without a
/// blank leftmost column and without more than two blank rightmost columns,
/// then a blank column; after the last character, blank columns until it
/// has left the display.
pub fn scroll_frames(text: &str) -> (r: Vec<Image>)
    ensures
        r@ == scroll_sequence(text@),
{
    let mut image = Image::blank();
    let mut frames: Vec<Image> = Vec::new();
    for c in it: text.chars()
        invariant
            it.seq() == text@,
            frames@ == scroll_in_frames(text@.subrange(0, it.index() as int)),
            image == scrolled_image(text@.subrange(0, it.index() as int)),
    {
        let ghost done = text@.subrange(0, it.index() as int);
        let ghost next = text@.subrange(0, it.index() + 1);
        assert(next.drop_last() =~= done);
        let g = Image::from(c);
        let start: usize = if g.column_non_blank(0) {
            0
        } else {
            1
        };
        let end: usize = if g.column_non_blank(4) {
            5
        } else if g.column_non_blank(3) {
            4
        } else {
            3
        };
        let ghost img0 = image;
        let ghost frames0 = frames@;
        let mut i: usize = start;
        while i < end
            invariant
                start <= i <= end <= 5,
                frames@ == frames0 + column_frames(img0, g, start as int, i as int),
                image == after_columns(img0, g, start as int, i as int),
            decreases end - i,
        {
            proof {
                lemma_column_frames_extend(img0, g, start as int, i as int);
            }
            push_column(&mut image, &g, i);
            frames.push(image);
            i = i + 1;
        }
        push_blank(&mut image);
        frames.push(image);
        assert(frames@ =~= frames0 + glyph_frames(img0, g));
    }
    assert(text@.subrange(0, text@.len() as int) =~= text@);
    let ghost img0 = image;
    let ghost frames0 = frames@;
    let mut n: usize = 0;
    while n < TRAILING_SHIFTS
        invariant
            n <= TRAILING_SHIFTS,
            frames@ == frames0 + trailing_frames(img0, n as nat),
            image == trailed(img0, n as nat),
        decreases TRAILING_SHIFTS - n,
    {
        proof {
            lemma_trailing_frames_extend(img0, n as nat);
        }
        push_blank(&mut image);
        frames.push(image);
        n = n + 1;
    }
    frames
}

} // verus!
