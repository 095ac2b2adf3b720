use vstd::prelude::*;

use vstd::arithmetic::div_mod::{lemma_fundamental_div_mod, lemma_mod_bound};
use vstd::arithmetic::mul::{lemma_mul_is_distributive_add, lemma_mul_nonnegative};

verus! {

/// The deadline a skipping ticker jumps to when polled at `now` at or past its
/// deadline `d0`: the first point of the period grid strictly after `now`.
pub open spec fn next_deadline_after(d0: int, period: int, now: int) -> int {
    d0 + period * ((now - d0) / period + 1)
}

/// The caught-up deadline lies in the period following `now`.
pub proof fn lemma_next_deadline_bounds(d0: int, period: int, now: int)
    requires
        period >= 1,
        d0 <= now,
    ensures
        now < next_deadline_after(d0, period, now) <= now + period,
{
    let q = (now - d0) / period;
    let r = (now - d0) % period;
    lemma_fundamental_div_mod(now - d0, period);
    lemma_mod_bound(now - d0, period);
    lemma_mul_is_distributive_add(period, q, 1);
    assert(next_deadline_after(d0, period, now) == now - r + period);
}

/// A ticker with the skip missed-tick policy: when polling resumes after a
/// stall, at most one tick fires, and the deadline jumps to the first grid
/// point after the present instant rather than replaying the missed ticks.
///
/// Instants are in the embedding node's clock units (seconds here).
#[derive(Clone, Copy, Debug, PartialEq, Eq, Structural)]
pub struct SkipTicker {
    /// Seconds between ticks.
    pub period: u64,
    /// The instant the next tick is due.
    pub next_deadline: u64,
}

/// What polling at `now` does: nothing before the deadline; at or past it,
/// one tick fires and the deadline moves to the first grid point after `now`.
pub open spec fn poll_spec(t: SkipTicker, now: u64) -> (SkipTicker, bool) {
    if now < t.next_deadline {
        (t, false)
    } else {
        (
            SkipTicker {
                period: t.period,
                next_deadline: next_deadline_after(
                    t.next_deadline as int,
                    t.period as int,
                    now as int,
                ) as u64,
            },
            true,
        )
    }
}

impl SkipTicker {
    /// Well-formed: the period is at least one clock unit.
    pub open spec fn wf(self) -> bool {
        self.period >= 1
    }

    /// A ticker created at `now`, whose first tick fires immediately.
    pub fn new(period: u64, now: u64) -> (r: Self)
        requires
            period >= 1,
        ensures
            r.wf(),
            r.period == period,
            r.next_deadline == now,
    {
        SkipTicker { period, next_deadline: now }
    }

    /// Pushes the next tick one full period past `now`; used right after a
    /// blocking startup update so the first tick does not fire at once.
    pub fn reset(&mut self, now: u64)
        requires
            old(self).wf(),
            now + old(self).period <= u64::MAX,
        ensures
            final(self).wf(),
            final(self).period == old(self).period,
            final(self).next_deadline == now + old(self).period,
    {
        self.next_deadline = now + self.period;
    }

    /// Polls the ticker at instant `now`; returns whether a tick fires.
    pub fn poll(&mut self, now: u64) -> (fired: bool)
        requires
            old(self).wf(),
            now as int + old(self).period as int <= u64::MAX as int,
        ensures
            final(self).wf(),
            (*final(self), fired) == poll_spec(*old(self), now),
    {
        if now < self.next_deadline {
            return false;
        }
        let d0 = self.next_deadline;
        let p = self.period;
        let q = (now - d0) / p;
        proof {
            let x = (now - d0) as int;
            lemma_fundamental_div_mod(x, p as int);
            lemma_mod_bound(x, p as int);
            lemma_mul_nonnegative(p as int, x / (p as int));
            lemma_mul_is_distributive_add(p as int, x / (p as int), 1);
            assert(q as int == x / (p as int));
            assert(p as int * (q as int + 1) == x - (x % (p as int)) + p);
        }
        let next = d0 + p * (q + 1);
        self.next_deadline = next;
        true
    }
}

/// Missed-tick policy: a tick that stalled past its deadline — for however
/// many whole periods — fires exactly once when polling resumes: the resumed
/// poll fires, the deadline lands inside the coming period, and a second poll
/// at the same instant does not fire again.
pub proof fn lemma_missed_tick_policy(t: SkipTicker, now: u64)
    requires
        t.wf(),
        t.next_deadline <= now,
        now as int + t.period as int <= u64::MAX as int,
    ensures
        poll_spec(t, now).1 == true,
        now < poll_spec(t, now).0.next_deadline as int <= now as int + t.period as int,
        poll_spec(poll_spec(t, now).0, now).1 == false,
{
    lemma_next_deadline_bounds(t.next_deadline as int, t.period as int, now as int);
}

} // verus!
