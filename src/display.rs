use vstd::prelude::*;

use crate::image::v1_layout;
use crate::image::Image;
use crate::schedule::on_time;
use crate::schedule::row_schedule;
use crate::schedule::row_ticks;
use crate::schedule::schedule_rows;
use crate::schedule::schedule_wf;
use crate::schedule::Step;
use crate::schedule::REFRESH_RATE;
use crate::schedule::TIMER_FREQUENCY;

verus! {

/// The row that a free-running timer value falls in.
pub open spec fn derived_row<const R: usize, const C: usize>(s: DisplayState<R, C>, counter: u16) -> int {
    counter as int / s.ticks_per_row as int
}

/// The schedule that drives the hardware after an interrupt at `counter`:
/// the pending one replaces the active one only when the scan enters row 0.
pub open spec fn active_after<const R: usize, const C: usize>(s: DisplayState<R, C>, counter: u16) -> [[Step; C]; R] {
    if derived_row(s, counter) != s.row && derived_row(s, counter) == 0 {
        s.next_steps
    } else {
        s.steps
    }
}

/// The columns of a row's steps whose time is not zero, in order: those
/// that are switched on when the row starts.
pub open spec fn lit_columns(s: Seq<Step>) -> Seq<usize>
    decreases s.len(),
{
    if s.len() == 0 {
        Seq::empty()
    } else if s.last().0 > 0 {
        lit_columns(s.drop_last()).push(s.last().1)
    } else {
        lit_columns(s.drop_last())
    }
}

/// How many of a row's steps have time zero.
pub open spec fn dark_count(s: Seq<Step>) -> nat
    decreases s.len(),
{
    if s.len() == 0 {
        0
    } else if s.last().0 > 0 {
        dark_count(s.drop_last())
    } else {
        dark_count(s.drop_last()) + 1
    }
}

/// The columns of a sequence of steps.
pub open spec fn step_columns(s: Seq<Step>) -> Seq<usize> {
    s.map_values(|p: Step| p.1)
}

/// The step index from which an interrupt at `counter` starts switching
/// columns off: past the dark columns of a row just entered, else where the
/// previous interrupt stopped.
pub open spec fn scan_start<const R: usize, const C: usize>(s: DisplayState<R, C>, counter: u16) -> int {
    if derived_row(s, counter) != s.row {
        dark_count(active_after(s, counter)[derived_row(s, counter)]@) as int
    } else {
        s.step as int
    }
}

/// The time within the current row at timer value `counter`.
pub open spec fn row_time<const R: usize, const C: usize>(s: DisplayState<R, C>, counter: u16) -> int {
    counter - s.row * s.ticks_per_row
}

/// The time within the current row of the next step, or the end of the row
/// when no step is left.
pub open spec fn next_due<const R: usize, const C: usize>(s: DisplayState<R, C>) -> int {
    if s.step < C {
        s.steps[s.row as int][s.step as int].0 as int
    } else {
        s.ticks_per_row as int
    }
}

/// The scan state of an LED matrix of `R` rows and `C` columns: the schedule
/// being shown, the one published for the next frame, the row being lit and
/// how many of its steps have been taken.
pub struct DisplayState<const R: usize, const C: usize> {
    /// The schedule published by the last `show`, shown from the next frame.
    pub next_steps: [[Step; C]; R],
    /// The schedule driving the hardware in this frame.
    pub steps: [[Step; C]; R],
    /// The row being lit.
    pub row: usize,
    /// The current step of the current row; the nth step is when the nth
    /// dimmest column is switched off.
    pub step: usize,
    /// Timer ticks in one row's scan window.
    pub ticks_per_row: u16,
}

/// A switch from one row to the next.
pub struct RowChange {
    /// The row whose pin goes low, after every column is switched off.
    pub previous_row: usize,
    /// The row whose pin goes high.
    pub row: usize,
    /// The columns to switch on for the new row.
    pub cols_on: Vec<usize>,
}

/// What the hardware must do in answer to one timer interrupt.
pub struct PinUpdate {
    /// The row switch to make first, if the scan moved to another row.
    pub row_change: Option<RowChange>,
    /// The columns to switch off, in order.
    pub cols_off: Vec<usize>,
    /// The timer value at which the next interrupt is due.
    pub compare: u16,
}

/// A counter within a frame falls in a row of the frame, and that row ends
/// within the frame.
proof fn lemma_row_bounds(counter: int, ticks: int, rows: int)
    requires
        0 <= counter < ticks * rows,
        ticks > 0,
        ticks * rows <= 0xffff,
    ensures
        0 <= counter / ticks < rows,
        (counter / ticks) * ticks <= counter,
        (counter / ticks) * ticks + ticks <= ticks * rows,
{
    assert((counter / ticks) * ticks <= counter) by (nonlinear_arith)
        requires
            ticks > 0,
            counter >= 0,
    ;
    assert(counter / ticks < rows) by (nonlinear_arith)
        requires
            0 <= counter < ticks * rows,
            ticks > 0,
    ;
    assert((counter / ticks) * ticks + ticks <= ticks * rows) by (nonlinear_arith)
        requires
            0 <= counter / ticks < rows,
            ticks > 0,
    ;
}

/// A frame that fits the 16-bit timer has at most as many rows as ticks.
proof fn lemma_rows_fit(ticks: int, rows: int)
    requires
        ticks >= 1,
        rows >= 0,
        ticks * rows <= 0xffff,
    ensures
        rows <= 0xffff,
{
    assert(rows <= ticks * rows) by (nonlinear_arith)
        requires
            ticks >= 1,
            rows >= 0,
    ;
}

impl<const R: usize, const C: usize> DisplayState<R, C> {
    /// Both schedules are well formed, a frame fits the 16-bit timer, and the
    /// row and step are in range.
    pub open spec fn wf(&self) -> bool {
        &&& self.ticks_per_row > 0
        &&& self.ticks_per_row * R <= 0xffff
        &&& schedule_wf(self.steps, self.ticks_per_row)
        &&& schedule_wf(self.next_steps, self.ticks_per_row)
        &&& self.row < R
        &&& self.step <= C
    }

    /// A blank display whose rows share one refresh period, set up so that
    /// the first interrupt starts a new row.
    pub fn new() -> (r: Self)
        requires
            1 <= R <= 1000,
            1 <= C,
        ensures
            r.wf(),
            r.ticks_per_row == row_ticks(R as int),
            r.row == R - 1,
            r.step == C,
            forall|i: int, k: int| 0 <= i < R && 0 <= k < C ==> (#[trigger] r.steps[i][k]).0 == 0,
            r.next_steps == r.steps,
    {
        let d: u32 = REFRESH_RATE * R as u32;
        let q: u32 = TIMER_FREQUENCY / d;
        assert(q as int * R as int <= 16666 && 1 <= q <= 16666) by (nonlinear_arith)
            requires
                d as int == 60 * R as int,
                1 <= R <= 1000,
                q == 1000000u32 / d,
        ;
        assert(q as int == row_ticks(R as int));
        let ticks_per_row = q as u16;
        let dark: [[u8; C]; R] = [[0u8; C]; R];
        let steps = schedule_rows(&dark, ticks_per_row);
        proof {
            assert forall|i: int, k: int| 0 <= i < R && 0 <= k < C implies (#[trigger] steps[i][k]).0 == 0 by {
                assert(row_schedule(steps[i], dark[i], ticks_per_row));
                assert(dark[i][steps[i][k].1 as int] == 0);
            }
        }
        DisplayState { next_steps: steps, steps, row: R - 1, step: C, ticks_per_row }
    }

    /// Timer ticks in one frame: the timer is cleared when it gets there.
    pub fn ticks_per_frame(&self) -> (r: u16)
        requires
            self.wf(),
        ensures
            r == self.ticks_per_row * R,
    {
        proof {
            lemma_rows_fit(self.ticks_per_row as int, R as int);
        }
        self.ticks_per_row * R as u16
    }

    /// Publishes the schedule of a grid of brightnesses laid out as the
    /// hardware scans it; it is shown from the start of the next frame.
    pub fn show_rows(&mut self, rows: &[[u8; C]; R])
        requires
            old(self).wf(),
        ensures
            final(self).wf(),
            forall|i: int| 0 <= i < R ==> row_schedule(#[trigger] final(self).next_steps[i], rows[i], final(self).ticks_per_row),
            final(self).steps == old(self).steps,
            final(self).row == old(self).row,
            final(self).step == old(self).step,
            final(self).ticks_per_row == old(self).ticks_per_row,
    {
        self.next_steps = schedule_rows(rows, self.ticks_per_row);
    }

    /// The time within the current row, in ticks, at timer value `counter`.
    pub fn time(&self, counter: u16) -> (t: u16)
        requires
            self.wf(),
            counter >= self.row * self.ticks_per_row,
        ensures
            t == counter - self.row * self.ticks_per_row,
    {
        proof {
            lemma_rows_fit(self.ticks_per_row as int, R as int);
            assert(self.row * self.ticks_per_row <= self.ticks_per_row * R) by (nonlinear_arith)
                requires
                    self.row < R,
                    self.ticks_per_row > 0,
            ;
        }
        counter - self.row as u16 * self.ticks_per_row
    }

    /// Reacts to a timer interrupt at free-running timer value `counter`.
    ///
    /// The row is derived from the counter. If it differs from the current
    /// one, the scan moves there: every column goes off, the old row's pin
    /// low and the new one's high, the pending schedule becomes active when
    /// the new row is row 0, and the columns with a non-zero time are
    /// switched on. Then every column whose time within the row has come is
    /// switched off, and the next interrupt is set for the next step, or for
    /// the end of the row when none is left.
    pub fn on_interrupt(&mut self, counter: u16) -> (r: PinUpdate)
        requires
            old(self).wf(),
            counter < old(self).ticks_per_row * R,
        ensures
            final(self).wf(),
            final(self).next_steps == old(self).next_steps,
            final(self).ticks_per_row == old(self).ticks_per_row,
            final(self).row as int == derived_row(*old(self), counter),
            final(self).steps == active_after(*old(self), counter),
            (r.row_change is Some) == (derived_row(*old(self), counter) != old(self).row),
            r.row_change matches Some(c) ==> {
                &&& c.previous_row == old(self).row
                &&& c.row == final(self).row
                &&& c.cols_on@ == lit_columns(final(self).steps[final(self).row as int]@)
            },
            scan_start(*old(self), counter) <= final(self).step,
            forall|k: int|
                scan_start(*old(self), counter) <= k < final(self).step ==> (#[trigger] final(self).steps[final(self).row as int][k]).0 <= row_time(*final(self), counter),
            final(self).step < C ==> final(self).steps[final(self).row as int][final(self).step as int].0 > row_time(*final(self), counter),
            r.cols_off@ == step_columns(final(self).steps[final(self).row as int]@.subrange(scan_start(*old(self), counter), final(self).step as int)),
            r.compare as int == final(self).row * final(self).ticks_per_row + next_due(*final(self)),
    {
        let ghost pre = *self;
        proof {
            lemma_row_bounds(counter as int, self.ticks_per_row as int, R as int);
        }
        let row: usize = (counter / self.ticks_per_row) as usize;
        let mut row_change: Option<RowChange> = None;
        if row != self.row {
            let previous_row = self.row;
            self.row = row;
            self.step = 0;
            if row == 0 {
                self.steps = self.next_steps;
            }
            let entered = self.steps[row];
            let mut cols_on: Vec<usize> = Vec::new();
            let mut k: usize = 0;
            while k < C
                invariant
                    k <= C,
                    row < R,
                    self.row == row,
                    self.ticks_per_row == pre.ticks_per_row,
                    self.steps == active_after(pre, counter),
                    self.next_steps == pre.next_steps,
                    entered == self.steps[row as int],
                    cols_on@ == lit_columns(entered@.subrange(0, k as int)),
                    self.step as int == dark_count(entered@.subrange(0, k as int)),
                    self.step <= k,
                decreases C - k,
            {
                let (time, col) = entered[k];
                assert(entered@.subrange(0, k + 1).drop_last() =~= entered@.subrange(0, k as int));
                if time > 0 {
                    cols_on.push(col);
                } else {
                    self.step = self.step + 1;
                }
                k = k + 1;
            }
            assert(entered@.subrange(0, C as int) =~= entered@);
            row_change = Some(RowChange { previous_row, row, cols_on });
        }
        let steps = self.steps[self.row];
        let now = self.time(counter);
        let ghost start = self.step as int;
        let mut cols_off: Vec<usize> = Vec::new();
        while self.step < C && steps[self.step].0 <= now
            invariant
                0 <= start <= self.step <= C,
                self.row < R,
                self.row as int == derived_row(pre, counter),
                self.ticks_per_row == pre.ticks_per_row,
                self.next_steps == pre.next_steps,
                self.steps == active_after(pre, counter),
                schedule_wf(self.steps, self.ticks_per_row),
                schedule_wf(self.next_steps, self.ticks_per_row),
                steps == self.steps[self.row as int],
                forall|k: int| start <= k < self.step ==> (#[trigger] steps[k]).0 <= now,
                cols_off@ == step_columns(steps@.subrange(start, self.step as int)),
            decreases C - self.step,
        {
            cols_off.push(steps[self.step].1);
            assert(steps@.subrange(start, self.step + 1) =~= steps@.subrange(
                start,
                self.step as int,
            ).push(steps[self.step as int]));
            self.step = self.step + 1;
        }
        let time = if self.step < C {
            steps[self.step].0
        } else {
            self.ticks_per_row
        };
        PinUpdate { row_change, cols_off, compare: self.row as u16 * self.ticks_per_row + time }
    }
}

impl DisplayState<5, 5> {
    /// Publishes the schedule of `image` on the 5x5 board; it is shown from
    /// the start of the next frame.
    pub fn show(&mut self, image: &Image)
        requires
            old(self).wf(),
        ensures
            final(self).wf(),
            forall|i: int| 0 <= i < 5 ==> row_schedule(#[trigger] final(self).next_steps[i], image.0[i], final(self).ticks_per_row),
            final(self).steps == old(self).steps,
            final(self).row == old(self).row,
            final(self).step == old(self).step,
            final(self).ticks_per_row == old(self).ticks_per_row,
    {
        self.show_rows(&image.hw_rows());
    }
}

impl DisplayState<3, 9> {
    /// Publishes the schedule of `image` on the older 3x9 board; it is shown
    /// from the start of the next frame.
    pub fn show(&mut self, image: &Image)
        requires
            old(self).wf(),
        ensures
            final(self).wf(),
            forall|i: int| 0 <= i < 3 ==> row_schedule(#[trigger] final(self).next_steps[i], v1_layout(*image)[i], final(self).ticks_per_row),
            final(self).steps == old(self).steps,
            final(self).row == old(self).row,
            final(self).step == old(self).step,
            final(self).ticks_per_row == old(self).ticks_per_row,
    {
        self.show_rows(&image.hw_rows_v1());
    }
}

/// Whether the handler must run again at once: the timer has already reached
/// the compare value just set, and no interrupt is waiting to report it.
pub fn should_rerun(counter: u16, compare: u16, irq_pending: bool) -> (r: bool)
    ensures
        r == (counter >= compare && !irq_pending),
{
    counter >= compare && !irq_pending
}

/// The active schedule changes only when the scan enters row 0: after an
/// interrupt on any other row it is the one that was already shown.
pub proof fn lemma_swap_only_at_row_zero<const R: usize, const C: usize>(s: DisplayState<R, C>, counter: u16)
    ensures
        active_after(s, counter) != s.steps ==> derived_row(s, counter) == 0,
        derived_row(s, counter) != 0 ==> active_after(s, counter) == s.steps,
{
}

/// Publishing a schedule in the middle of a frame leaves the steps of the
/// rows being scanned alone: two states that differ only in their pending
/// schedule, as `show` leaves them, scan the same steps until row 0 comes
/// round again.
pub proof fn lemma_publish_mid_frame<const R: usize, const C: usize>(
    s: DisplayState<R, C>,
    published: DisplayState<R, C>,
    counter: u16,
)
    requires
        published.steps == s.steps,
        published.row == s.row,
        published.step == s.step,
        published.ticks_per_row == s.ticks_per_row,
        derived_row(s, counter) != 0,
    ensures
        active_after(published, counter) == s.steps,
        active_after(published, counter) == active_after(s, counter),
        scan_start(published, counter) == scan_start(s, counter),
{
}

} // verus!
