//! Matrix scanner debouncing: a saturating per-cell counter turns raw column
//! samples into clean press and release events.
use vstd::prelude::*;

verus! {

/// Consecutive high samples needed before a press is reported.
pub const KEY_BOUNCE_THRESHOLD: u8 = 7;

/// A debounced key edge at matrix cell (x, y).
#[derive(Clone, Copy, PartialEq, Eq, Structural, Debug)]
pub enum Event {
    Down(u8, u8),
    Up(u8, u8),
}

/// The counter after one raw sample: a high sample counts up, saturating at
/// the threshold; a low sample counts down, saturating at zero.
pub open spec fn spec_counter_step(c: u8, high: bool) -> u8 {
    if high {
        if c >= KEY_BOUNCE_THRESHOLD {
            KEY_BOUNCE_THRESHOLD
        } else {
            (c + 1) as u8
        }
    } else {
        if c == 0 {
            0u8
        } else {
            (c - 1) as u8
        }
    }
}

/// The edge a counter change reports: `Some(true)` is a press (the counter
/// just reached the threshold), `Some(false)` a release (it just reached
/// zero); every other change is suppressed.
pub open spec fn spec_edge(last: u8, new: u8) -> Option<bool> {
    if last == 1 && new == 0 {
        Some(false)
    } else if last == KEY_BOUNCE_THRESHOLD - 1 && new == KEY_BOUNCE_THRESHOLD {
        Some(true)
    } else {
        None
    }
}

/// Feeds one raw sample of matrix cell (x, y) into its debounce counter and
/// returns the debounced event the sample completes, if any.
pub fn probe_sample(counters: &mut [u8; 30], x: u8, y: u8, high: bool) -> (r: Option<Event>)
    requires
        x < 6,
        y < 5,
    ensures
        ({
            let idx = x + y * 6;
            let c0 = old(counters)@[idx as int];
            let c1 = spec_counter_step(c0, high);
            &&& final(counters)@ == old(counters)@.update(idx as int, c1)
            &&& r == (match spec_edge(c0, c1) {
                Some(true) => Some(Event::Down(x, y)),
                Some(false) => Some(Event::Up(x, y)),
                None => None::<Event>,
            })
        }),
{
    let idx: usize = (x + y * 6) as usize;
    let last_state = counters[idx];
    let new_state = if high {
        if last_state >= KEY_BOUNCE_THRESHOLD {
            KEY_BOUNCE_THRESHOLD
        } else {
            last_state + 1
        }
    } else {
        if last_state == 0 {
            0
        } else {
            last_state - 1
        }
    };
    counters[idx] = new_state;
    if last_state == 1 && new_state == 0 {
        Some(Event::Up(x, y))
    } else if last_state == KEY_BOUNCE_THRESHOLD - 1 && new_state == KEY_BOUNCE_THRESHOLD {
        Some(Event::Down(x, y))
    } else {
        None
    }
}

/// Final counter and the number of presses and releases one cell reports over
/// a sequence of raw samples.
pub open spec fn spec_cell_run(c: u8, samples: Seq<bool>) -> (u8, int, int)
    decreases samples.len(),
{
    if samples.len() == 0 {
        (c, 0, 0)
    } else {
        let c1 = spec_counter_step(c, samples[0]);
        let e = spec_edge(c, c1);
        let (cf, d, u) = spec_cell_run(c1, samples.drop_first());
        (
            cf,
            d + if e == Some(true) {
                1int
            } else {
                0int
            },
            u + if e == Some(false) {
                1int
            } else {
                0int
            },
        )
    }
}

/// A burst of `n` consecutive high samples.
pub open spec fn highs(n: int) -> Seq<bool> {
    Seq::new(n as nat, |i: int| true)
}

/// A stretch of `m` consecutive low samples.
pub open spec fn lows(m: int) -> Seq<bool> {
    Seq::new(m as nat, |i: int| false)
}

/// Running a cell over concatenated samples runs the parts in order and adds
/// their event counts.
pub proof fn lemma_run_concat(c: u8, s1: Seq<bool>, s2: Seq<bool>)
    ensures
        ({
            let (c1, d1, u1) = spec_cell_run(c, s1);
            let (c2, d2, u2) = spec_cell_run(c1, s2);
            spec_cell_run(c, s1 + s2) == (c2, d1 + d2, u1 + u2)
        }),
    decreases s1.len(),
{
    if s1.len() == 0 {
        assert(s1 + s2 =~= s2);
    } else {
        let cs = spec_counter_step(c, s1[0]);
        lemma_run_concat(cs, s1.drop_first(), s2);
        assert((s1 + s2).drop_first() =~= s1.drop_first() + s2);
    }
}

/// A burst of high samples: the counter climbs to the threshold and
/// saturates, one press fires exactly when the burst carries the counter over
/// the threshold, and no release fires.
pub proof fn lemma_high_run(c: u8, n: int)
    requires
        c <= KEY_BOUNCE_THRESHOLD,
        n >= 0,
    ensures
        ({
            let (cf, d, u) = spec_cell_run(c, highs(n));
            &&& cf == (if c + n >= KEY_BOUNCE_THRESHOLD {
                KEY_BOUNCE_THRESHOLD as int
            } else {
                c + n
            })
            &&& d == (if c < KEY_BOUNCE_THRESHOLD && c + n >= KEY_BOUNCE_THRESHOLD {
                1int
            } else {
                0int
            })
            &&& u == 0
        }),
    decreases n,
{
    if n > 0 {
        let c1 = spec_counter_step(c, true);
        assert(highs(n).drop_first() =~= highs(n - 1));
        lemma_high_run(c1, n - 1);
    }
}

/// A stretch of low samples: the counter falls to zero and saturates, one
/// release fires exactly when the stretch carries a raised counter to zero,
/// and no press fires.
pub proof fn lemma_low_run(c: u8, m: int)
    requires
        c <= KEY_BOUNCE_THRESHOLD,
        m >= 0,
    ensures
        ({
            let (cf, d, u) = spec_cell_run(c, lows(m));
            &&& cf == (if m >= c {
                0int
            } else {
                c - m
            })
            &&& u == (if c >= 1 && m >= c {
                1int
            } else {
                0int
            })
            &&& d == 0
        }),
    decreases m,
{
    if m > 0 {
        let c1 = spec_counter_step(c, false);
        assert(lows(m).drop_first() =~= lows(m - 1));
        lemma_low_run(c1, m - 1);
    }
}

/// Matrix debounce threshold, short burst: a burst below the threshold,
/// surrounded by lows, never reports a press. (It reports one release — and
/// nothing else — exactly when the burst raised the counter at all and the
/// following lows drain it back to zero: the release edge fires on every
/// counter transition to zero.)
pub proof fn lemma_debounce_short_burst(n: int, m: int)
    requires
        0 <= n < KEY_BOUNCE_THRESHOLD,
        m >= 0,
    ensures
        ({
            let (cf, d, u) = spec_cell_run(0, highs(n) + lows(m));
            d == 0 && u == (if n >= 1 && m >= n {
                1int
            } else {
                0int
            })
        }),
{
    lemma_high_run(0, n);
    let (c1, d1, u1) = spec_cell_run(0, highs(n));
    lemma_low_run(c1, m);
    lemma_run_concat(0, highs(n), lows(m));
}

/// Matrix debounce threshold, full burst: a burst exactly at the threshold,
/// followed by enough lows to settle, reports exactly one press and then one
/// release.
pub proof fn lemma_debounce_full_burst(m: int)
    requires
        m >= KEY_BOUNCE_THRESHOLD,
    ensures
        ({
            let (cf, d, u) = spec_cell_run(0, highs(KEY_BOUNCE_THRESHOLD as int) + lows(m));
            d == 1 && u == 1 && cf == 0
        }),
{
    lemma_high_run(0, KEY_BOUNCE_THRESHOLD as int);
    let (c1, d1, u1) = spec_cell_run(0, highs(KEY_BOUNCE_THRESHOLD as int));
    lemma_low_run(c1, m);
    lemma_run_concat(0, highs(KEY_BOUNCE_THRESHOLD as int), lows(m));
}

} // verus!
