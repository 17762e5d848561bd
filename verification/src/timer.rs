//! The "delay, don't burst" periodic timer and the rate-ceiling law.
//!
//! A missed tick is delayed, never fired repeatedly back-to-back: when a
//! tick fires at time `now`, the next deadline is rescheduled to
//! `now + period`, so the timer never compensates for backlog by firing
//! faster than one tick per period.

use vstd::prelude::*;
use vstd::arithmetic::div_mod::{lemma_div_is_ordered, lemma_div_multiples_vanish, lemma_div_plus_one, lemma_div_pos_is_pos};
use vstd::arithmetic::mul::lemma_mul_is_commutative;

verus! {

/// A periodic timer in microseconds, carrying the (ghost) trace of the
/// instants at which it fired. The first tick is due immediately at the
/// start instant.
pub struct IntervalTimer {
    pub period_micros: u64,
    pub next_deadline_micros: u64,
    pub fires: Ghost<Seq<u64>>,
}

impl IntervalTimer {
    /// Past fire instants are each at least one period apart, and the
    /// next deadline lies one full period past the last of them.
    pub open spec fn wf(self) -> bool {
        &&& forall|i: int|
            0 <= i < self.fires@.len() - 1
                ==> #[trigger] self.fires@[i] + self.period_micros <= self.fires@[i + 1]
        &&& (self.fires@.len() > 0 ==> self.next_deadline_micros
            == self.fires@.last() + self.period_micros)
    }

    pub fn new(start_micros: u64, period_micros: u64) -> (t: IntervalTimer)
        requires
            period_micros >= 1,
        ensures
            t.wf(),
            t.period_micros == period_micros,
            t.next_deadline_micros == start_micros,
            t.fires@.len() == 0,
    {
        IntervalTimer {
            period_micros,
            next_deadline_micros: start_micros,
            fires: Ghost(Seq::empty()),
        }
    }

    /// Fire if the deadline has passed. On a fire — on time or late —
    /// the next deadline is `now + period`: a missed tick is delayed,
    /// never batched.
    pub fn poll(&mut self, now_micros: u64) -> (fired: bool)
        requires
            old(self).wf(),
            old(self).period_micros >= 1,
            now_micros + old(self).period_micros <= u64::MAX,
        ensures
            final(self).wf(),
            final(self).period_micros == old(self).period_micros,
            fired <==> now_micros >= old(self).next_deadline_micros,
            fired ==> final(self).next_deadline_micros == now_micros + old(self).period_micros,
            fired ==> final(self).fires@ == old(self).fires@.push(now_micros),
            !fired ==> *final(self) == *old(self),
    {
        if now_micros >= self.next_deadline_micros {
            self.next_deadline_micros = now_micros + self.period_micros;
            proof {
                self.fires@ = self.fires@.push(now_micros);
            }
            true
        } else {
            false
        }
    }
}

proof fn lemma_spaced_lower_bound(times: Seq<u64>, period: u64, i: int)
    requires
        forall|j: int| 0 <= j < times.len() - 1 ==> #[trigger] times[j] + period <= times[j + 1],
        0 <= i < times.len(),
    ensures
        times[0] + i * period <= times[i],
    decreases i,
{
    if i > 0 {
        lemma_spaced_lower_bound(times, period, i - 1);
        assert((i - 1) * period + period == i * period) by (nonlinear_arith);
    } else {
        assert(0 * period == 0) by (nonlinear_arith);
    }
}

/// Rate ceiling, not rate floor: any sequence of submission instants
/// that fall within a half-open window of `window` microseconds and are
/// spaced at least `period` microseconds apart — as successive fires of
/// an `IntervalTimer` are, since each fire reschedules the deadline one
/// full period past the fire instant — numbers at most
/// `ceil(window / period)`, i.e. `(window + period - 1) / period`.
pub proof fn lemma_rate_ceiling(times: Seq<u64>, period: u64, start: u64, window: u64)
    requires
        period >= 1,
        forall|i: int| 0 <= i < times.len() ==> start <= #[trigger] times[i] < start + window,
        forall|i: int| 0 <= i < times.len() - 1 ==> #[trigger] times[i] + period <= times[i + 1],
    ensures
        times.len() <= (window + period - 1) / (period as int),
{
    let p = period as int;
    let w = window as int;
    if times.len() == 0 {
        lemma_div_pos_is_pos(w + p - 1, p);
    } else {
        let n = times.len() as int;
        lemma_spaced_lower_bound(times, period, n - 1);
        // times[0] + (n-1) * period <= times[n-1] < start + window and
        // start <= times[0], so (n-1) * period <= window - 1.
        assert((n - 1) * p <= w - 1);
        lemma_div_is_ordered((n - 1) * p, w - 1, p);
        lemma_mul_is_commutative(n - 1, p);
        lemma_div_multiples_vanish(n - 1, p);
        assert(n - 1 <= (w - 1) / p);
        lemma_div_plus_one(w - 1, p);
        assert(1 + (w - 1) / p == (p + (w - 1)) / p);
    }
}

/// The rate ceiling stated of a timer itself: a well-formed timer whose
/// recorded fires all lie in a half-open window of `window` microseconds
/// fired at most `ceil(window / period)` times in it.
pub proof fn lemma_timer_rate_ceiling(t: IntervalTimer, start: u64, window: u64)
    requires
        t.wf(),
        t.period_micros >= 1,
        forall|i: int| 0 <= i < t.fires@.len() ==> start <= #[trigger] t.fires@[i] < start + window,
    ensures
        t.fires@.len() <= (window + t.period_micros - 1) / (t.period_micros as int),
{
    lemma_rate_ceiling(t.fires@, t.period_micros, start, window);
}

} // verus!
