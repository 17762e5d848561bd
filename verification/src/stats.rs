//! Per-worker window statistics and the single-consumer aggregator that
//! merges them: the latest window per worker id is retained (overwrite
//! semantics), global sums and latency bounds are recomputed on every
//! receipt, and a summary is marked for emission only on every
//! `num_workers`-th receipt.

use vstd::prelude::*;
use vstd::arithmetic::mul::lemma_mul_is_distributive_add_other_way;

verus! {

/// One worker's statistics for one reporting window. Latency bounds use
/// sentinel extremes when the window saw no success: `min == u64::MAX`,
/// `max == 0`.
#[derive(Clone, Copy, PartialEq, Eq, Structural, Debug)]
pub struct Stats {
    pub id: usize,
    pub num_success: u64,
    pub num_error: u64,
    pub num_no_gas: u64,
    pub num_submitted: u64,
    pub num_in_flight: u64,
    pub min_latency_micros: u64,
    pub max_latency_micros: u64,
    pub duration_micros: u64,
}

/// Global sums and latency bounds over the latest window of every known
/// worker. Sums are wide enough that no count of `u64` windows overflows.
#[derive(Clone, Copy, PartialEq, Eq, Structural, Debug)]
pub struct GlobalSummary {
    pub num_success: u128,
    pub num_error: u128,
    pub num_no_gas: u128,
    pub num_submitted: u128,
    pub num_in_flight: u128,
    pub min_latency_micros: u64,
    pub max_latency_micros: u64,
}

pub open spec fn sum_success(s: Seq<Stats>) -> int
    decreases s.len(),
{
    if s.len() == 0 { 0 } else { sum_success(s.drop_last()) + s.last().num_success }
}

pub open spec fn sum_error(s: Seq<Stats>) -> int
    decreases s.len(),
{
    if s.len() == 0 { 0 } else { sum_error(s.drop_last()) + s.last().num_error }
}

pub open spec fn sum_no_gas(s: Seq<Stats>) -> int
    decreases s.len(),
{
    if s.len() == 0 { 0 } else { sum_no_gas(s.drop_last()) + s.last().num_no_gas }
}

pub open spec fn sum_submitted(s: Seq<Stats>) -> int
    decreases s.len(),
{
    if s.len() == 0 { 0 } else { sum_submitted(s.drop_last()) + s.last().num_submitted }
}

pub open spec fn sum_in_flight(s: Seq<Stats>) -> int
    decreases s.len(),
{
    if s.len() == 0 { 0 } else { sum_in_flight(s.drop_last()) + s.last().num_in_flight }
}

/// The least per-worker window minimum, `u64::MAX` over no workers.
pub open spec fn min_latency_of(s: Seq<Stats>) -> u64
    decreases s.len(),
{
    if s.len() == 0 {
        u64::MAX
    } else {
        let m = min_latency_of(s.drop_last());
        if s.last().min_latency_micros < m { s.last().min_latency_micros } else { m }
    }
}

/// The greatest per-worker window maximum, `0` over no workers.
pub open spec fn max_latency_of(s: Seq<Stats>) -> u64
    decreases s.len(),
{
    if s.len() == 0 {
        0
    } else {
        let m = max_latency_of(s.drop_last());
        if s.last().max_latency_micros > m { s.last().max_latency_micros } else { m }
    }
}

/// The global view derived from a set of per-worker windows.
pub open spec fn summary_of(s: Seq<Stats>) -> GlobalSummary {
    GlobalSummary {
        num_success: sum_success(s) as u128,
        num_error: sum_error(s) as u128,
        num_no_gas: sum_no_gas(s) as u128,
        num_submitted: sum_submitted(s) as u128,
        num_in_flight: sum_in_flight(s) as u128,
        min_latency_micros: min_latency_of(s),
        max_latency_micros: max_latency_of(s),
    }
}

/// Each global sum of `n` windows lies between `0` and `n * u64::MAX`.
pub proof fn lemma_sum_bounds(s: Seq<Stats>)
    ensures
        0 <= sum_success(s) <= s.len() * (u64::MAX as int),
        0 <= sum_error(s) <= s.len() * (u64::MAX as int),
        0 <= sum_no_gas(s) <= s.len() * (u64::MAX as int),
        0 <= sum_submitted(s) <= s.len() * (u64::MAX as int),
        0 <= sum_in_flight(s) <= s.len() * (u64::MAX as int),
    decreases s.len(),
{
    if s.len() > 0 {
        lemma_sum_bounds(s.drop_last());
        lemma_mul_is_distributive_add_other_way(u64::MAX as int, s.len() - 1, 1);
    }
}

/// Whether some window in the collection belongs to the given worker id.
pub open spec fn has_id(s: Seq<Stats>, id: usize) -> bool {
    exists|j: int| 0 <= j < s.len() && s[j].id == id
}

/// No two windows in the collection belong to the same worker.
pub open spec fn ids_unique(s: Seq<Stats>) -> bool {
    forall|i: int, j: int| 0 <= i < j < s.len() ==> s[i].id != s[j].id
}

/// Recompute the global sums and latency bounds across all known workers.
pub fn summarize(stats: &Vec<Stats>) -> (g: GlobalSummary)
    ensures
        g == summary_of(stats@),
{
    let mut num_success: u128 = 0;
    let mut num_error: u128 = 0;
    let mut num_no_gas: u128 = 0;
    let mut num_submitted: u128 = 0;
    let mut num_in_flight: u128 = 0;
    let mut min_latency_micros: u64 = u64::MAX;
    let mut max_latency_micros: u64 = 0;
    let mut i: usize = 0;
    while i < stats.len()
        invariant
            0 <= i <= stats@.len(),
            num_success == sum_success(stats@.subrange(0, i as int)),
            num_error == sum_error(stats@.subrange(0, i as int)),
            num_no_gas == sum_no_gas(stats@.subrange(0, i as int)),
            num_submitted == sum_submitted(stats@.subrange(0, i as int)),
            num_in_flight == sum_in_flight(stats@.subrange(0, i as int)),
            min_latency_micros == min_latency_of(stats@.subrange(0, i as int)),
            max_latency_micros == max_latency_of(stats@.subrange(0, i as int)),
        decreases stats@.len() - i,
    {
        proof {
            let prefix = stats@.subrange(0, i as int);
            let next = stats@.subrange(0, i as int + 1);
            assert(next.drop_last() =~= prefix);
            assert(next.last() == stats@[i as int]);
            lemma_sum_bounds(prefix);
            assert((i as int) * (u64::MAX as int) + (u64::MAX as int) <= u128::MAX as int)
                by (nonlinear_arith)
                requires 0 <= i as int <= 0xFFFF_FFFF_FFFF_FFFFu64 as int;
        }
        let v = stats[i];
        num_success = num_success + v.num_success as u128;
        num_error = num_error + v.num_error as u128;
        num_no_gas = num_no_gas + v.num_no_gas as u128;
        num_submitted = num_submitted + v.num_submitted as u128;
        num_in_flight = num_in_flight + v.num_in_flight as u128;
        if v.min_latency_micros < min_latency_micros {
            min_latency_micros = v.min_latency_micros;
        }
        if v.max_latency_micros > max_latency_micros {
            max_latency_micros = v.max_latency_micros;
        }
        i = i + 1;
    }
    proof {
        assert(stats@.subrange(0, stats@.len() as int) =~= stats@);
    }
    GlobalSummary {
        num_success,
        num_error,
        num_no_gas,
        num_submitted,
        num_in_flight,
        min_latency_micros,
        max_latency_micros,
    }
}

/// The sole consumer of the statistics channel: keeps the latest window
/// per worker id and counts receipts to pace summary emission.
pub struct StatsAggregator {
    pub stat_collection: Vec<Stats>,
    pub counter: u64,
    pub num_workers: u64,
}

impl StatsAggregator {
    /// Well-formed: one window per worker id at most, and a positive
    /// emission cadence.
    pub open spec fn wf(self) -> bool {
        ids_unique(self.stat_collection@) && self.num_workers >= 1
    }

    pub fn new(num_workers: u64) -> (a: StatsAggregator)
        requires
            num_workers >= 1,
        ensures
            a.wf(),
            a.stat_collection@.len() == 0,
            a.counter == 0,
            a.num_workers == num_workers,
    {
        StatsAggregator { stat_collection: Vec::new(), counter: 0, num_workers }
    }

    /// Take one worker's window: overwrite that worker's previous window
    /// (or record the first one), recompute the global view, and say
    /// whether this receipt is one of the every-`num_workers`-th receipts
    /// on which a summary line is emitted.
    pub fn on_receive(&mut self, s: Stats) -> (r: (GlobalSummary, bool))
        requires
            old(self).wf(),
            old(self).counter < u64::MAX,
        ensures
            final(self).wf(),
            final(self).num_workers == old(self).num_workers,
            final(self).counter == old(self).counter + 1,
            !has_id(old(self).stat_collection@, s.id)
                ==> final(self).stat_collection@ == old(self).stat_collection@.push(s),
            has_id(old(self).stat_collection@, s.id)
                ==> exists|j: int|
                    0 <= j < old(self).stat_collection@.len()
                        && old(self).stat_collection@[j].id == s.id
                        && final(self).stat_collection@ == old(self).stat_collection@.update(j, s),
            r.0 == summary_of(final(self).stat_collection@),
            r.1 <==> (old(self).counter + 1) % (old(self).num_workers as int) == 0,
    {
        let ghost old_seq = self.stat_collection@;
        let n = self.stat_collection.len();
        let mut j: usize = 0;
        while j < n && self.stat_collection[j].id != s.id
            invariant
                self.stat_collection@ == old_seq,
                n == old_seq.len(),
                0 <= j <= n,
                forall|k: int| 0 <= k < j ==> old_seq[k].id != s.id,
            decreases n - j,
        {
            j = j + 1;
        }
        if j < n {
            let _ = self.stat_collection.remove(j);
            self.stat_collection.insert(j, s);
            proof {
                assert(self.stat_collection@ =~= old_seq.update(j as int, s));
                assert forall|a: int, b: int|
                    0 <= a < b < self.stat_collection@.len()
                    implies self.stat_collection@[a].id != self.stat_collection@[b].id by {
                    assert(old_seq[a].id != old_seq[b].id);
                }
            }
        } else {
            self.stat_collection.push(s);
            proof {
                assert forall|a: int, b: int|
                    0 <= a < b < self.stat_collection@.len()
                    implies self.stat_collection@[a].id != self.stat_collection@[b].id by {
                    if b < old_seq.len() {
                        assert(old_seq[a].id != old_seq[b].id);
                    } else {
                        assert(old_seq[a].id != s.id);
                    }
                }
            }
        }
        self.counter = self.counter + 1;
        let g = summarize(&self.stat_collection);
        let emit = self.counter % self.num_workers == 0;
        (g, emit)
    }
}

} // verus!
