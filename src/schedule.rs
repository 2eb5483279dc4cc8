use vstd::prelude::*;

use crate::image::Image;

verus! {

/// How many times per second the whole matrix is scanned.
pub const REFRESH_RATE: u32 = 60;

/// The display timer's frequency in Hz.
pub const TIMER_FREQUENCY: u32 = 1_000_000;

/// Timer ticks in one row's scan window on the 5x5 board: the timer
/// frequency over the refresh rate times the row count.
pub const TICKS_PER_ROW: u16 = 3333;

/// Timer ticks in one full frame on the 5x5 board; the timer is cleared when
/// it gets there.
pub const TICKS_PER_FRAME: u16 = TICKS_PER_ROW * 5;

/// One step of a row: when a column is switched off, in ticks from the
/// start of the row, and which column.
pub type Step = (u16, usize);

/// The steps of every row of the 5x5 board, each row sorted by time.
pub type Schedule = [[Step; 5]; 5];

/// How long an LED of brightness `b` stays lit within a row's window of
/// `ticks` ticks.
pub open spec fn on_time(ticks: u16, b: u8) -> int {
    ticks as int * b as int / 255
}

/// The ticks in one row's window when `rows` rows share a refresh period.
pub open spec fn row_ticks(rows: int) -> int {
    TIMER_FREQUENCY as int / (REFRESH_RATE as int * rows)
}

/// The row windows of the two boards: 3333 ticks for five rows and 5555
/// for three, so a frame is 16665 ticks on either.
pub proof fn lemma_board_row_ticks()
    ensures
        row_ticks(5) == TICKS_PER_ROW as int,
        row_ticks(3) == 5555,
        TICKS_PER_FRAME == 16665,
{
    assert(1000000int / 300int == 3333int) by (nonlinear_arith);
    assert(1000000int / 180int == 5555int) by (nonlinear_arith);
}

/// The entries of `s` are the columns of `row`, each exactly once, with its
/// own time in a window of `ticks`.
pub open spec fn row_entries<const C: usize>(s: [Step; C], row: [u8; C], ticks: u16) -> bool {
    &&& forall|k: int| 0 <= k < C ==> (#[trigger] s[k]).1 < C
    &&& forall|k: int| 0 <= k < C ==> (#[trigger] s[k]).0 as int == on_time(ticks, row[s[k].1 as int])
    &&& forall|k1: int, k2: int|
        0 <= k1 < C && 0 <= k2 < C && k1 != k2 ==> (#[trigger] s[k1]).1 != (#[trigger] s[k2]).1
}

/// The entries of `s` come in order of time.
pub open spec fn row_sorted<const C: usize>(s: [Step; C]) -> bool {
    forall|k1: int, k2: int| 0 <= k1 <= k2 < C ==> (#[trigger] s[k1]).0 <= (#[trigger] s[k2]).0
}

/// `s` is a valid step list for a row of brightnesses `row`.
pub open spec fn row_schedule<const C: usize>(s: [Step; C], row: [u8; C], ticks: u16) -> bool {
    row_entries(s, row, ticks) && row_sorted(s)
}

/// Every row of `s` is a list of its columns sorted by time, each time at
/// most `ticks`.
pub open spec fn schedule_wf<const R: usize, const C: usize>(s: [[Step; C]; R], ticks: u16) -> bool {
    forall|i: int|
        0 <= i < R ==> {
            &&& row_sorted(#[trigger] s[i])
            &&& forall|k: int| 0 <= k < C ==> (#[trigger] s[i][k]).1 < C
            &&& forall|k: int| 0 <= k < C ==> (#[trigger] s[i][k]).0 <= ticks
        }
}

/// The tick, counted from the start of a row of `ticks` ticks, at which an
/// LED of brightness `b` is switched off.
pub fn column_time(ticks: u16, b: u8) -> (t: u16)
    ensures
        t as int == on_time(ticks, b),
        t <= ticks,
{
    assert(ticks as u32 * b as u32 <= 0xffff * 255) by (nonlinear_arith)
        requires
            ticks <= 0xffff,
            b <= 255,
    ;
    let p: u32 = ticks as u32 * b as u32;
    assert(p / 255 <= ticks) by (nonlinear_arith)
        requires
            p == (ticks as u32) * (b as u32),
            b <= 255,
    ;
    (p / 255) as u16
}

/// An LED's on-time never shrinks as its brightness grows; brightness 0 is
/// never lit and brightness 255 stays lit for the whole row.
pub proof fn lemma_on_time_monotonic(ticks: u16, a: u8, b: u8)
    requires
        a <= b,
    ensures
        on_time(ticks, a) <= on_time(ticks, b),
        on_time(ticks, 0) == 0,
        on_time(ticks, 255) == ticks as int,
{
    assert(ticks as int * a as int / 255 <= ticks as int * b as int / 255) by (nonlinear_arith)
        requires
            a <= b,
            ticks >= 0,
    ;
}

/// Sorts a row's steps by time, keeping each step whole.
fn sort_row<const C: usize>(s: &mut [Step; C], Ghost(row): Ghost<[u8; C]>, Ghost(ticks): Ghost<u16>)
    requires
        row_entries(*old(s), row, ticks),
    ensures
        row_schedule(*final(s), row, ticks),
{
    let mut i: usize = 1;
    while i < C
        invariant
            1 <= i,
            i <= C || C == 0,
            row_entries(*s, row, ticks),
            forall|k1: int, k2: int| 0 <= k1 <= k2 < i && k2 < C ==> (#[trigger] s[k1]).0 <= (#[trigger] s[k2]).0,
        decreases C - i,
    {
        let mut j: usize = i;
        while j > 0 && s[j - 1].0 > s[j].0
            invariant
                1 <= i < C,
                j <= i,
                row_entries(*s, row, ticks),
                forall|k1: int, k2: int|
                    0 <= k1 <= k2 <= i && k1 != j && k2 != j ==> (#[trigger] s[k1]).0 <= (#[trigger] s[k2]).0,
                forall|k: int| j < k <= i ==> s[j as int].0 <= (#[trigger] s[k]).0,
            decreases j,
        {
            let a = s[j - 1];
            let b = s[j];
            s[j - 1] = b;
            s[j] = a;
            j = j - 1;
        }
        i = i + 1;
    }
}

/// The render schedule of a grid of brightnesses as the hardware scans it:
/// for each row, every column with the tick at which it is switched off in
/// a window of `ticks`, sorted by tick. A column with tick 0 is never
/// switched on.
pub fn schedule_rows<const R: usize, const C: usize>(rows: &[[u8; C]; R], ticks: u16) -> (r: [[Step; C]; R])
    ensures
        forall|i: int| 0 <= i < R ==> row_schedule(#[trigger] r[i], rows[i], ticks),
        schedule_wf(r, ticks),
{
    let mut out: [[Step; C]; R] = [[(0u16, 0usize); C]; R];
    let mut i: usize = 0;
    while i < R
        invariant
            i <= R,
            forall|k: int| 0 <= k < i ==> row_schedule(#[trigger] out[k], rows[k], ticks),
        decreases R - i,
    {
        let mut row: [Step; C] = [(0u16, 0usize); C];
        let mut j: usize = 0;
        while j < C
            invariant
                j <= C,
                i < R,
                forall|k: int| 0 <= k < j ==> (#[trigger] row[k]).1 == k,
                forall|k: int| 0 <= k < j ==> (#[trigger] row[k]).0 as int == on_time(ticks, rows[i as int][k]),
            decreases C - j,
        {
            row[j] = (column_time(ticks, rows[i][j]), j);
            j = j + 1;
        }
        sort_row(&mut row, Ghost(rows[i as int]), Ghost(ticks));
        out[i] = row;
        i = i + 1;
    }
    proof {
        assert forall|i: int| 0 <= i < R implies {
            &&& row_sorted(#[trigger] out[i])
            &&& forall|k: int| 0 <= k < C ==> (#[trigger] out[i][k]).1 < C
            &&& forall|k: int| 0 <= k < C ==> (#[trigger] out[i][k]).0 <= ticks
        } by {
            assert(row_schedule(out[i], rows[i], ticks));
            assert forall|k: int| 0 <= k < C implies (#[trigger] out[i][k]).0 <= ticks by {
                let b = rows[i][out[i][k].1 as int];
                assert(ticks as int * (b as int) / 255 <= ticks as int) by (nonlinear_arith)
                    requires
                        0 <= b <= 255,
                        ticks >= 0,
                ;
            }
        }
    }
    out
}

impl Image {
    /// The render schedule of this image on the 5x5 board.
    pub fn steps(&self) -> (r: Schedule)
        ensures
            forall|i: int| 0 <= i < 5 ==> row_schedule(#[trigger] r[i], self.0[i], TICKS_PER_ROW),
            schedule_wf(r, TICKS_PER_ROW),
    {
        let hw = self.hw_rows();
        schedule_rows(&hw, TICKS_PER_ROW)
    }
}

} // verus!
