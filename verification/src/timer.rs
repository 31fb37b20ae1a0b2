//! A reusable fixed-period ticker.  Every periodic behaviour of the game
//! (walk cadence, flashing, damage ticks, fall/scroll cadence, effect
//! animation) is expressed as "advance this timer by the elapsed delta, then
//! run the behaviour once per firing".  A single large delta may fire a timer
//! several times, which is what keeps the simulation frame-rate independent.

use vstd::arithmetic::div_mod::{
    lemma_fundamental_div_mod, lemma_fundamental_div_mod_converse_div,
    lemma_fundamental_div_mod_converse_mod,
};
use vstd::prelude::*;

verus! {

/// Upper bound accepted for a timer period, in milliseconds.  Keeping periods
/// and accumulators below this bound guarantees that `i32` arithmetic on them
/// cannot overflow for any delta up to `MAX_DT`.
pub const MAX_PERIOD: i32 = 1_000_000_000;

/// Largest elapsed-time delta, in milliseconds, that one advance accepts.
pub const MAX_DT: u32 = 1_000_000_000;

#[derive(Clone, Copy)]
pub struct Timer {
    /// The period: a firing is produced for every `waittime` milliseconds
    /// accumulated.  Always strictly positive.
    pub waittime: i32,
    /// Accumulated milliseconds not yet consumed by a firing.
    pub wait: i32,
}

impl Timer {
    /// The period is strictly positive and the accumulator non-negative.
    pub open spec fn wf(&self) -> bool {
        0 < self.waittime && 0 <= self.wait
    }

    /// Well-formed with period and accumulator small enough that advancing
    /// by any delta up to `MAX_DT` stays within `i32`.
    pub open spec fn bounded(&self) -> bool {
        self.wf() && self.waittime <= MAX_PERIOD && self.wait <= MAX_PERIOD
    }

    /// Number of firings produced by draining an accumulator of `total`
    /// milliseconds against a period of `period` milliseconds.
    pub open spec fn fire_count(total: int, period: int) -> int {
        total / period
    }

    /// Milliseconds left in the accumulator after such a drain.
    pub open spec fn leftover(total: int, period: int) -> int {
        total % period
    }

    pub fn new(waittime: i32) -> (t: Timer)
        requires
            0 < waittime,
        ensures
            t.wf(),
            t.waittime == waittime,
            t.wait == 0,
    {
        let mut timer = Timer { waittime: 0, wait: 0 };
        timer.set_wait(waittime);
        timer.reset();
        timer
    }

    /// Zeroes the accumulator; the period is kept.
    pub fn reset(&mut self)
        ensures
            final(self).wait == 0,
            final(self).waittime == old(self).waittime,
    {
        self.wait = 0;
    }

    /// Adds a non-negative delta to the accumulator.
    pub fn add(&mut self, dt: u32)
        requires
            old(self).wf(),
            old(self).wait + dt <= i32::MAX,
        ensures
            final(self).wf(),
            final(self).wait == old(self).wait + dt,
            final(self).waittime == old(self).waittime,
    {
        self.wait = self.wait + (dt as i32);
    }

    /// One drain step: if at least one period has accumulated, consumes one
    /// period and reports a firing; otherwise reports none and changes
    /// nothing.  Calling this in a loop after `add` processes every period
    /// that elapsed.
    pub fn is_reached(&mut self) -> (fired: bool)
        requires
            old(self).wf(),
        ensures
            final(self).wf(),
            fired == (old(self).wait >= old(self).waittime),
            final(self).waittime == old(self).waittime,
            final(self).wait == if fired {
                old(self).wait - old(self).waittime
            } else {
                old(self).wait as int
            },
    {
        if self.wait >= self.waittime {
            self.wait = self.wait - self.waittime;
            return true;
        }
        false
    }

    /// Advances the accumulator by `dt` and drains it completely, returning
    /// how many whole periods elapsed.  The remainder below one period stays
    /// in the accumulator, so no elapsed time is ever lost.
    pub fn wait(&mut self, dt: u32) -> (fired: u32)
        requires
            old(self).wf(),
            old(self).wait + dt <= i32::MAX,
        ensures
            final(self).wf(),
            final(self).waittime == old(self).waittime,
            fired == Self::fire_count(old(self).wait + dt, old(self).waittime as int),
            final(self).wait == Self::leftover(old(self).wait + dt, old(self).waittime as int),
            final(self).wait < final(self).waittime,
    {
        self.add(dt);
        let ghost total: int = self.wait as int;
        let mut fired: u32 = 0;
        loop
            invariant
                self.wf(),
                self.waittime == old(self).waittime,
                total == fired * self.waittime + self.wait,
                total <= i32::MAX,
            ensures
                self.wf(),
                self.waittime == old(self).waittime,
                total == fired * self.waittime + self.wait,
                self.wait < self.waittime,
            decreases self.wait,
        {
            if !self.is_reached() {
                break;
            }
            proof {
                assert((fired + 1) * self.waittime == fired * self.waittime + self.waittime)
                    by (nonlinear_arith);
                assert(fired + 1 <= (fired + 1) * self.waittime) by (nonlinear_arith)
                    requires
                        fired >= 0 && self.waittime >= 1;
            }
            fired = fired + 1;
        }
        proof {
            lemma_fundamental_div_mod_converse_div(
                total,
                self.waittime as int,
                fired as int,
                self.wait as int,
            );
            lemma_fundamental_div_mod_converse_mod(
                total,
                self.waittime as int,
                fired as int,
                self.wait as int,
            );
        }
        fired
    }

    /// Reassigns the period.  A non-positive period is a programming error;
    /// the accumulated-but-unconsumed progress survives the change.
    pub fn set_wait(&mut self, t: i32)
        requires
            0 < t,
        ensures
            final(self).waittime == t,
            final(self).wait == old(self).wait,
    {
        self.waittime = t;
    }
}

/// Law: advancing a timer once by `d1 + d2` yields the same firing count and
/// the same final accumulator as advancing it by `d1` and then by `d2`,
/// draining after each advance.  `w` is the accumulator before the first
/// advance and `p` the (positive) period; both descriptions instantiate the
/// `fire_count`/`leftover` clauses of `Timer::wait`.
pub proof fn lemma_wait_split(w: int, p: int, d1: int, d2: int)
    requires
        0 < p,
        0 <= w,
        0 <= d1,
        0 <= d2,
    ensures
        Timer::fire_count(w + d1, p) + Timer::fire_count(Timer::leftover(w + d1, p) + d2, p)
            == Timer::fire_count(w + d1 + d2, p),
        Timer::leftover(Timer::leftover(w + d1, p) + d2, p) == Timer::leftover(w + d1 + d2, p),
{
    let n1 = (w + d1) / p;
    let r1 = (w + d1) % p;
    let n2 = (r1 + d2) / p;
    let r2 = (r1 + d2) % p;
    lemma_fundamental_div_mod(w + d1, p);
    lemma_fundamental_div_mod(r1 + d2, p);
    assert(w + d1 + d2 == (n1 + n2) * p + r2) by (nonlinear_arith)
        requires
            w + d1 == p * n1 + r1,
            r1 + d2 == p * n2 + r2;
    lemma_fundamental_div_mod_converse_div(w + d1 + d2, p, n1 + n2, r2);
    lemma_fundamental_div_mod_converse_mod(w + d1 + d2, p, n1 + n2, r2);
}

/// Total number of firings produced by advancing a timer with accumulator
/// `w` and period `p` by each delta of `ds` in turn, draining after each
/// advance.
pub open spec fn fire_count_seq(w: int, p: int, ds: Seq<int>) -> int
    decreases ds.len(),
{
    if ds.len() == 0 {
        0
    } else {
        Timer::fire_count(w + ds[0], p) + fire_count_seq(
            Timer::leftover(w + ds[0], p),
            p,
            ds.drop_first(),
        )
    }
}

/// Accumulator left after such a sequence of advances.
pub open spec fn leftover_seq(w: int, p: int, ds: Seq<int>) -> int
    decreases ds.len(),
{
    if ds.len() == 0 {
        w
    } else {
        leftover_seq(Timer::leftover(w + ds[0], p), p, ds.drop_first())
    }
}

/// Sum of a sequence of deltas.
pub open spec fn sum_seq(ds: Seq<int>) -> int
    decreases ds.len(),
{
    if ds.len() == 0 {
        0
    } else {
        ds[0] + sum_seq(ds.drop_first())
    }
}

/// Every delta of a sequence is non-negative.
pub open spec fn all_nonneg(ds: Seq<int>) -> bool {
    forall|i: int| 0 <= i < ds.len() ==> 0 <= #[trigger] ds[i]
}

/// Law (split-invariance of the ticking primitive): for any delta split into
/// arbitrarily many non-negative increments, draining after each increment
/// yields exactly as many total firings, and the same final accumulator, as
/// advancing once by the whole sum.  `w` is the accumulator of a drained
/// timer (below one period, as `Timer::wait` leaves it) and `p` its period.
pub proof fn lemma_wait_split_seq(w: int, p: int, ds: Seq<int>)
    requires
        0 < p,
        0 <= w < p,
        all_nonneg(ds),
    ensures
        fire_count_seq(w, p, ds) == Timer::fire_count(w + sum_seq(ds), p),
        leftover_seq(w, p, ds) == Timer::leftover(w + sum_seq(ds), p),
    decreases ds.len(),
{
    if ds.len() == 0 {
        assert(sum_seq(ds) == 0);
        vstd::arithmetic::div_mod::lemma_basic_div(w, p);
        vstd::arithmetic::div_mod::lemma_small_mod(w as nat, p as nat);
    } else {
        let r1 = Timer::leftover(w + ds[0], p);
        vstd::arithmetic::div_mod::lemma_mod_division_less_than_divisor(w + ds[0], p);
        let rest = ds.drop_first();
        assert(all_nonneg(rest)) by {
            assert(forall|i: int| 0 <= i < rest.len() ==> rest[i] == ds[i + 1]);
        }
        lemma_sum_seq_nonneg(rest);
        lemma_wait_split_seq(r1, p, rest);
        lemma_wait_split(w, p, ds[0], sum_seq(rest));
        assert(sum_seq(ds) == ds[0] + sum_seq(rest));
    }
}

/// The sum of non-negative deltas is non-negative.
pub proof fn lemma_sum_seq_nonneg(ds: Seq<int>)
    requires
        all_nonneg(ds),
    ensures
        0 <= sum_seq(ds),
    decreases ds.len(),
{
    if ds.len() > 0 {
        let rest = ds.drop_first();
        assert(all_nonneg(rest)) by {
            assert(forall|i: int| 0 <= i < rest.len() ==> rest[i] == ds[i + 1]);
        }
        lemma_sum_seq_nonneg(rest);
    }
}

} // verus!
