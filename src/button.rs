use vstd::prelude::*;

verus! {

/// The lowest value of the debounce accumulator.
pub const MIN_SIGMA: u8 = 0;

/// The highest value of the debounce accumulator.
pub const MAX_SIGMA: u8 = 12;

/// Above this the button counts as pressed.
pub const SIGMA_HIGH_THRESHOLD: u8 = 8;

/// Below this the button counts as released.
pub const SIGMA_LOW_THRESHOLD: u8 = 2;

/// The hysteresis filter of one button, fed one raw sample per period.
#[derive(Clone, Copy, Debug, PartialEq, Eq, Structural)]
pub struct Debounce {
    /// The accumulator: up on every pressed sample, down on every released
    /// one, within `MIN_SIGMA..=MAX_SIGMA`.
    pub sigma: u8,
    /// Whether a press has been registered and not yet released.
    pub latched: bool,
}

/// The accumulator after one sample.
pub open spec fn next_sigma(sigma: u8, active: bool) -> u8 {
    if active {
        if sigma < MAX_SIGMA {
            (sigma + 1) as u8
        } else {
            sigma
        }
    } else if sigma > MIN_SIGMA {
        (sigma - 1) as u8
    } else {
        sigma
    }
}

/// The filter after one sample, and whether that sample registered a press.
pub open spec fn step(s: Debounce, active: bool) -> (Debounce, bool) {
    let sigma = next_sigma(s.sigma, active);
    if sigma > SIGMA_HIGH_THRESHOLD && !s.latched {
        (Debounce { sigma, latched: true }, true)
    } else if sigma < SIGMA_LOW_THRESHOLD && s.latched {
        (Debounce { sigma, latched: false }, false)
    } else {
        (Debounce { sigma, latched: s.latched }, false)
    }
}

/// The filter after a run of samples, and how many presses they registered.
pub open spec fn run(s: Debounce, samples: Seq<bool>) -> (Debounce, nat)
    decreases samples.len(),
{
    if samples.len() == 0 {
        (s, 0)
    } else {
        let (before, n) = run(s, samples.drop_last());
        let (after, pressed) = step(before, samples.last());
        (after, if pressed {
            n + 1
        } else {
            n
        })
    }
}

/// `n` samples of the same level.
pub open spec fn constant_samples(active: bool, n: nat) -> Seq<bool> {
    Seq::new(n, |i: int| active)
}

impl Debounce {
    /// The accumulator is in range; a released filter is at most at the high
    /// threshold and a latched one at least at the low threshold.
    pub open spec fn wf(&self) -> bool {
        &&& self.sigma <= MAX_SIGMA
        &&& !self.latched ==> self.sigma <= SIGMA_HIGH_THRESHOLD
        &&& self.latched ==> self.sigma >= SIGMA_LOW_THRESHOLD
    }

    /// A released filter with an empty accumulator.
    pub fn new() -> (r: Debounce)
        ensures
            r.wf(),
            r.sigma == 0,
            !r.latched,
    {
        Debounce { sigma: MIN_SIGMA, latched: false }
    }

    /// Takes one raw sample (`active` when the button reads pressed) and
    /// returns whether it registered a press: the accumulator rises above
    /// the high threshold while no press is latched.
    pub fn sample(&mut self, active: bool) -> (pressed: bool)
        ensures
            (*final(self), pressed) == step(*old(self), active),
            old(self).wf() ==> final(self).wf(),
            old(self).wf() && pressed ==> active && final(self).sigma == SIGMA_HIGH_THRESHOLD + 1,
    {
        if active {
            if self.sigma < MAX_SIGMA {
                self.sigma = self.sigma + 1;
            }
        } else if self.sigma > MIN_SIGMA {
            self.sigma = self.sigma - 1;
        }
        if self.sigma > SIGMA_HIGH_THRESHOLD && !self.latched {
            self.latched = true;
            true
        } else {
            if self.sigma < SIGMA_LOW_THRESHOLD && self.latched {
                self.latched = false;
            }
            false
        }
    }
}

/// Whether a press counter at `count` has moved on since `last`.
pub open spec fn press_seen(last: u32, count: u32) -> bool {
    count > last
}

/// A consumer's view of a button's press counter: the value it saw last.
#[derive(Clone, Copy, Debug, PartialEq, Eq, Structural)]
pub struct Button {
    /// The press count at the last call of `was_pressed`.
    pub last_press_count: u32,
}

impl Button {
    /// A handle that has seen no press.
    pub fn new() -> (r: Button)
        ensures
            r.last_press_count == 0,
    {
        Button { last_press_count: 0 }
    }

    /// Whether the button's press counter, now at `press_count`, has moved
    /// on since the last call; any number of presses in between count as
    /// one. The handle remembers `press_count`.
    pub fn was_pressed(&mut self, press_count: u32) -> (r: bool)
        ensures
            r == press_seen(old(self).last_press_count, press_count),
            final(self).last_press_count == press_count,
    {
        let was_pressed = press_count > self.last_press_count;
        self.last_press_count = press_count;
        was_pressed
    }
}

/// A run with one more sample is the shorter run followed by one step.
proof fn lemma_run_extend(s: Debounce, samples: Seq<bool>, next: bool)
    ensures
        run(s, samples.push(next)) == ({
            let (before, n) = run(s, samples);
            let (after, pressed) = step(before, next);
            (after, if pressed {
                n + 1
            } else {
                n
            })
        }),
{
    assert(samples.push(next).drop_last() =~= samples);
}

/// From rest, a button held for `k` samples has registered exactly one press
/// once `k` reaches nine, on the ninth sample, and none before; holding it
/// longer registers nothing more.
pub proof fn lemma_hold_from_rest(k: nat)
    ensures
        run(Debounce { sigma: 0, latched: false }, constant_samples(true, k)) == (
            Debounce {
                sigma: if k < 12 {
                    k as u8
                } else {
                    12u8
                },
                latched: k > 8,
            },
            if k > 8 {
                1nat
            } else {
                0nat
            },
        ),
    decreases k,
{
    let rest = Debounce { sigma: 0, latched: false };
    if k > 0 {
        let prev = (k - 1) as nat;
        lemma_hold_from_rest(prev);
        assert(constant_samples(true, prev).push(true) =~= constant_samples(true, k));
        lemma_run_extend(rest, constant_samples(true, prev), true);
    } else {
        assert(constant_samples(true, 0) =~= Seq::<bool>::empty());
    }
}

/// While a press is latched no sample registers another one.
pub proof fn lemma_latched_no_press(s: Debounce, active: bool)
    requires
        s.latched,
    ensures
        !step(s, active).1,
{
}

/// Hysteresis: right after a press, fewer than seven released samples leave
/// the press latched, so a new press that follows at once registers nothing
/// however long it is held; the accumulator must first fall below the low
/// threshold and then rise above the high one again.
pub proof fn lemma_short_release_keeps_latch(s: Debounce, releases: nat, holds: nat)
    requires
        s.wf(),
        s.latched,
        s.sigma > SIGMA_HIGH_THRESHOLD,
        releases < 7,
    ensures
        run(s, constant_samples(false, releases)).0.latched,
        run(s, constant_samples(false, releases)).1 == 0,
        run(s, constant_samples(false, releases) + constant_samples(true, holds)).0.latched,
        run(s, constant_samples(false, releases) + constant_samples(true, holds)).1 == 0,
{
    lemma_release_run(s, releases);
    lemma_hold_run(s, releases, holds);
}

/// Fewer than seven released samples after a press keep it latched and
/// lower the accumulator by at most one each.
proof fn lemma_release_run(s: Debounce, releases: nat)
    requires
        s.wf(),
        s.latched,
        s.sigma > SIGMA_HIGH_THRESHOLD,
        releases < 7,
    ensures
        run(s, constant_samples(false, releases)).0.latched,
        run(s, constant_samples(false, releases)).1 == 0,
        run(s, constant_samples(false, releases)).0.sigma + releases >= s.sigma,
    decreases releases,
{
    if releases > 0 {
        let prev = (releases - 1) as nat;
        lemma_release_run(s, prev);
        assert(constant_samples(false, prev).push(false) =~= constant_samples(false, releases));
        lemma_run_extend(s, constant_samples(false, prev), false);
    } else {
        assert(constant_samples(false, 0) =~= Seq::<bool>::empty());
    }
}

/// Holding the button after a short release registers nothing.
proof fn lemma_hold_run(s: Debounce, releases: nat, holds: nat)
    requires
        s.wf(),
        s.latched,
        s.sigma > SIGMA_HIGH_THRESHOLD,
        releases < 7,
    ensures
        run(s, constant_samples(false, releases) + constant_samples(true, holds)).0.latched,
        run(s, constant_samples(false, releases) + constant_samples(true, holds)).1 == 0,
    decreases holds,
{
    let rel = constant_samples(false, releases);
    if holds > 0 {
        let prev = (holds - 1) as nat;
        lemma_hold_run(s, releases, prev);
        assert((rel + constant_samples(true, prev)).push(true) =~= rel + constant_samples(true, holds));
        lemma_run_extend(s, rel + constant_samples(true, prev), true);
    } else {
        lemma_release_run(s, releases);
        assert(rel + constant_samples(true, 0) =~= rel);
    }
}

/// Successive calls of `was_pressed` report presses that happened in between
/// once: after the counter moved on, the first call sees it and a second
/// call with no new press does not.
pub proof fn lemma_presses_reported_once(last: u32, count: u32)
    requires
        count > last,
    ensures
        press_seen(last, count),
        !press_seen(count, count),
{
}

} // verus!
