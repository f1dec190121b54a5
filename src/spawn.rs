use vstd::prelude::*;

use crate::motion::inner_half_span;
use crate::params::ENEMY_WIDTH;

verus! {

/// A repeating countdown. It fires on a tick that brings the elapsed time to
/// the period or past it, at most once per tick, and keeps the remainder.
#[derive(Clone, Copy, Debug, PartialEq, Eq, Structural)]
pub struct SpawnTimer {
    /// Length of one period, in microseconds.
    pub period: u64,
    /// Time accumulated since the last period boundary, in microseconds.
    pub elapsed: u64,
}

impl SpawnTimer {
    pub open spec fn wf(&self) -> bool {
        0 < self.period && self.elapsed < self.period
    }

    /// A fresh timer with period `period` microseconds.
    pub fn new(period: u64) -> (r: SpawnTimer)
        requires
            0 < period,
        ensures
            r.wf(),
            r.period == period,
            r.elapsed == 0,
    {
        SpawnTimer { period, elapsed: 0 }
    }

    /// Advances the timer by `delta` microseconds and tells whether it fired.
    pub fn tick(&mut self, delta: u64) -> (fired: bool)
        requires
            old(self).wf(),
        ensures
            final(self).wf(),
            *final(self) == timer_after(*old(self), delta),
            fired == timer_fires(*old(self), delta),
    {
        let rest: u64 = self.period - self.elapsed;
        if delta < rest {
            proof {
                vstd::arithmetic::div_mod::lemma_small_mod(
                    (self.elapsed + delta) as nat,
                    self.period as nat,
                );
            }
            self.elapsed = self.elapsed + delta;
            false
        } else {
            self.elapsed = (delta - rest) % self.period;
            proof {
                assert(old(self).elapsed + delta == self.period + (delta - rest));
                vstd::arithmetic::div_mod::lemma_mod_add_multiples_vanish(
                    (delta - rest) as int,
                    self.period as int,
                );
            }
            true
        }
    }
}

/// Whether a tick of `delta` microseconds makes `t` fire.
pub open spec fn timer_fires(t: SpawnTimer, delta: u64) -> bool {
    t.elapsed + delta >= t.period
}

/// `t` after a tick of `delta` microseconds.
pub open spec fn timer_after(t: SpawnTimer, delta: u64) -> SpawnTimer {
    SpawnTimer { period: t.period, elapsed: ((t.elapsed + delta) % (t.period as int)) as u64 }
}

/// Sum of a sequence of durations.
pub open spec fn total(deltas: Seq<u64>) -> nat
    decreases deltas.len(),
{
    if deltas.len() == 0 {
        0
    } else {
        (deltas[0] + total(deltas.drop_first())) as nat
    }
}

/// Number of ticks that fire when `t` is ticked by each of `deltas` in turn.
pub open spec fn fire_count(t: SpawnTimer, deltas: Seq<u64>) -> nat
    decreases deltas.len(),
{
    if deltas.len() == 0 {
        0
    } else {
        (if timer_fires(t, deltas[0]) {
            1nat
        } else {
            0nat
        }) + fire_count(timer_after(t, deltas[0]), deltas.drop_first())
    }
}

/// As long as no single tick spans more than one period, the timer fires once
/// for each period boundary that the accumulated time crosses.
pub proof fn lemma_fires_once_per_boundary(t: SpawnTimer, deltas: Seq<u64>)
    requires
        t.wf(),
        forall|i: int| 0 <= i < deltas.len() ==> deltas[i] <= t.period,
    ensures
        fire_count(t, deltas) == (t.elapsed + total(deltas)) / (t.period as int),
    decreases deltas.len(),
{
    if deltas.len() > 0 {
        let d = deltas[0];
        let rest = deltas.drop_first();
        let p = t.period as int;
        let next = timer_after(t, d);
        assert forall|i: int| 0 <= i < rest.len() implies rest[i] <= next.period by {
            assert(rest[i] == deltas[i + 1]);
        }
        vstd::arithmetic::div_mod::lemma_mod_pos_bound((t.elapsed + d) as int, p);
        lemma_fires_once_per_boundary(next, rest);
        if t.elapsed + d >= p {
            vstd::arithmetic::div_mod::lemma_mod_sub_multiples_vanish((t.elapsed + d) as int, p);
            vstd::arithmetic::div_mod::lemma_small_mod((t.elapsed + d - p) as nat, p as nat);
            vstd::arithmetic::div_mod::lemma_div_plus_one((t.elapsed + d - p + total(rest)) as int, p);
        } else {
            vstd::arithmetic::div_mod::lemma_small_mod((t.elapsed + d) as nat, p as nat);
        }
    } else {
        vstd::arithmetic::div_mod::lemma_basic_div(t.elapsed as int, t.period as int);
    }
}

/// How the accumulated time is split into ticks does not change how many
/// times the timer fires, as long as no tick spans more than one period.
pub proof fn lemma_fire_count_ignores_split(t: SpawnTimer, a: Seq<u64>, b: Seq<u64>)
    requires
        t.wf(),
        forall|i: int| 0 <= i < a.len() ==> a[i] <= t.period,
        forall|i: int| 0 <= i < b.len() ==> b[i] <= t.period,
        total(a) == total(b),
    ensures
        fire_count(t, a) == fire_count(t, b),
{
    lemma_fires_once_per_boundary(t, a);
    lemma_fires_once_per_boundary(t, b);
}

/// Bound of the horizontal range in which an enemy may appear in a window of
/// width `window_width`: the enemy centre is drawn from `[-m, m]`.
pub open spec fn enemy_spawn_bound(window_width: i64) -> i64 {
    ((window_width - ENEMY_WIDTH) / 2) as i64
}

/// `x` is a position at which an enemy may appear in a window of width `window_width`.
pub open spec fn spawn_x_in_range(window_width: i64, x: i64) -> bool {
    -enemy_spawn_bound(window_width) <= x <= enemy_spawn_bound(window_width)
}

/// Relies on `rand::thread_rng` and `rand::Rng::gen_range` with an inclusive
/// range: the value drawn lies in `[lo, hi]`, and the range must not be empty.
#[verifier::external_body]
fn draw_between(lo: i64, hi: i64) -> (r: i64)
    requires
        lo <= hi,
    ensures
        lo <= r <= hi,
{
    rand::Rng::gen_range(&mut rand::thread_rng(), lo..=hi)
}

/// Draws at random the horizontal position of a new enemy, so that the enemy
/// box lies inside a window of width `window_width`.
pub fn random_spawn_x(window_width: i64) -> (x: i64)
    requires
        ENEMY_WIDTH <= window_width,
    ensures
        spawn_x_in_range(window_width, x),
{
    let m: i64 = inner_half_span(window_width, ENEMY_WIDTH);
    draw_between(-m, m)
}

} // verus!
