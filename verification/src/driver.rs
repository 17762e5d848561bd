//! Partitioning of a workload's request-volume and rate budget across a
//! fixed number of workers, and the run plan that validates the resulting
//! worker set before any worker starts.
//!
//! Worker `i` of `n` receives `floor(total / n)` of each budget; the last
//! worker additionally receives `total % n`. A worker whose request share
//! or rate share is zero is dropped entirely. A run with no retained
//! workers is rejected as a configuration error.

use vstd::prelude::*;
use vstd::arithmetic::div_mod::{lemma_fundamental_div_mod, lemma_remainder_lower};
use vstd::arithmetic::mul::{lemma_mul_inequality, lemma_mul_is_commutative, lemma_mul_is_distributive_add_other_way};
use crate::payload::Payload;

verus! {

/// Per-workload configuration: a total in-flight volume budget, a total
/// rate budget (requests per second), and the number of workers the two
/// budgets are split across.
#[derive(Clone, Copy)]
pub struct LoadTarget {
    pub max_in_flight_ops: u64,
    pub target_qps: u64,
    pub num_workers: u64,
}

/// One worker's slice of a workload's budgets.
#[derive(Clone, Copy, PartialEq, Eq, Structural, Debug)]
pub struct WorkerShare {
    pub num_requests: u64,
    pub target_qps: u64,
}

/// A worker's budget together with the payload pool it exclusively owns.
pub struct BenchWorker {
    pub num_requests: u64,
    pub target_qps: u64,
    pub payload: Vec<Payload>,
}

/// The driver: holds the statistics-collection interval in seconds.
pub struct BenchDriver {
    pub stat_collection_interval: u64,
}

/// Structural errors that abort a run before any worker starts.
#[derive(Clone, Copy, PartialEq, Eq, Structural, Debug)]
pub enum BenchError {
    /// Partitioning dropped every worker, so the run would do no work.
    NoWorkers,
}

impl BenchError {
    pub fn message(&self) -> (s: String)
        ensures
            s@ == "No workers to run benchmark!"@,
    {
        "No workers to run benchmark!".to_string()
    }
}

/// Worker `i`'s request-volume share: the floor share, plus the remainder
/// for the last worker.
pub open spec fn share_requests(t: LoadTarget, i: int) -> int {
    if i == t.num_workers - 1 {
        t.max_in_flight_ops as int / t.num_workers as int
            + t.max_in_flight_ops as int % t.num_workers as int
    } else {
        t.max_in_flight_ops as int / t.num_workers as int
    }
}

/// Worker `i`'s rate share: the floor share, plus the remainder for the
/// last worker.
pub open spec fn share_qps(t: LoadTarget, i: int) -> int {
    if i == t.num_workers - 1 {
        t.target_qps as int / t.num_workers as int + t.target_qps as int % t.num_workers as int
    } else {
        t.target_qps as int / t.num_workers as int
    }
}

/// The shares of workers `0 .. n` that are retained: a worker is kept
/// exactly when both of its computed shares are positive.
pub open spec fn retained_shares(t: LoadTarget, n: int) -> Seq<WorkerShare>
    decreases n,
{
    if n <= 0 {
        Seq::empty()
    } else {
        let prefix = retained_shares(t, n - 1);
        if share_requests(t, n - 1) > 0 && share_qps(t, n - 1) > 0 {
            prefix.push(WorkerShare {
                num_requests: share_requests(t, n - 1) as u64,
                target_qps: share_qps(t, n - 1) as u64,
            })
        } else {
            prefix
        }
    }
}

/// The shares the partitioner produces for one workload.
pub open spec fn spec_partition(t: LoadTarget) -> Seq<WorkerShare> {
    retained_shares(t, t.num_workers as int)
}

/// Sum of the computed request shares of workers `0 .. n`.
pub open spec fn sum_share_requests(t: LoadTarget, n: int) -> int
    decreases n,
{
    if n <= 0 {
        0
    } else {
        sum_share_requests(t, n - 1) + share_requests(t, n - 1)
    }
}

/// Sum of the computed rate shares of workers `0 .. n`.
pub open spec fn sum_share_qps(t: LoadTarget, n: int) -> int
    decreases n,
{
    if n <= 0 {
        0
    } else {
        sum_share_qps(t, n - 1) + share_qps(t, n - 1)
    }
}

/// Both shares fit in `u64` and are nonnegative: each is at most the
/// total it was carved from.
pub proof fn lemma_share_bounds(t: LoadTarget, i: int)
    requires
        t.num_workers >= 1,
        0 <= i < t.num_workers,
    ensures
        0 <= share_requests(t, i) <= t.max_in_flight_ops,
        0 <= share_qps(t, i) <= t.target_qps,
{
    let n = t.num_workers as int;
    let m = t.max_in_flight_ops as int;
    let q = t.target_qps as int;
    lemma_fundamental_div_mod(m, n);
    lemma_fundamental_div_mod(q, n);
    lemma_remainder_lower(m, n);
    lemma_remainder_lower(q, n);
    lemma_mul_inequality(1, n, m / n);
    lemma_mul_inequality(1, n, q / n);
}

proof fn lemma_sum_of_base_shares(t: LoadTarget, k: int)
    requires
        t.num_workers >= 1,
        0 <= k <= t.num_workers - 1,
    ensures
        sum_share_requests(t, k) == k * (t.max_in_flight_ops as int / t.num_workers as int),
        sum_share_qps(t, k) == k * (t.target_qps as int / t.num_workers as int),
    decreases k,
{
    let base_r = t.max_in_flight_ops as int / t.num_workers as int;
    let base_q = t.target_qps as int / t.num_workers as int;
    if k > 0 {
        lemma_sum_of_base_shares(t, k - 1);
        lemma_mul_is_distributive_add_other_way(base_r, k - 1, 1);
        lemma_mul_is_distributive_add_other_way(base_q, k - 1, 1);
    }
}

/// Partition conservation: for every target with at least one worker, the
/// computed per-worker shares sum exactly to the workload's totals —
/// no request volume and no rate is lost to rounding.
pub proof fn lemma_partition_conservation(t: LoadTarget)
    requires
        t.num_workers >= 1,
    ensures
        sum_share_requests(t, t.num_workers as int) == t.max_in_flight_ops,
        sum_share_qps(t, t.num_workers as int) == t.target_qps,
{
    let n = t.num_workers as int;
    let m = t.max_in_flight_ops as int;
    let q = t.target_qps as int;
    lemma_sum_of_base_shares(t, n - 1);
    lemma_fundamental_div_mod(m, n);
    lemma_fundamental_div_mod(q, n);
    lemma_mul_is_distributive_add_other_way(m / n, n - 1, 1);
    lemma_mul_is_commutative(n, m / n);
    lemma_mul_is_distributive_add_other_way(q / n, n - 1, 1);
    lemma_mul_is_commutative(n, q / n);
}

/// Sum of the request budgets of a sequence of retained shares.
pub open spec fn sum_requests_of(s: Seq<WorkerShare>) -> int
    decreases s.len(),
{
    if s.len() == 0 {
        0
    } else {
        sum_requests_of(s.drop_last()) + s.last().num_requests
    }
}

/// Sum of the rate budgets of a sequence of retained shares.
pub open spec fn sum_qps_of(s: Seq<WorkerShare>) -> int
    decreases s.len(),
{
    if s.len() == 0 {
        0
    } else {
        sum_qps_of(s.drop_last()) + s.last().target_qps
    }
}

proof fn lemma_retained_sums(t: LoadTarget, n: int)
    requires
        t.num_workers >= 1,
        0 <= n <= t.num_workers,
        forall|i: int|
            0 <= i < n ==> share_requests(t, i) > 0 && share_qps(t, i) > 0,
    ensures
        retained_shares(t, n).len() == n,
        sum_requests_of(retained_shares(t, n)) == sum_share_requests(t, n),
        sum_qps_of(retained_shares(t, n)) == sum_share_qps(t, n),
    decreases n,
{
    if n > 0 {
        lemma_retained_sums(t, n - 1);
        lemma_share_bounds(t, n - 1);
        assert(retained_shares(t, n).drop_last() =~= retained_shares(t, n - 1));
    }
}

/// Partition conservation for the retained workers: when no worker's
/// computed share is zero, the partitioner drops nobody and the budgets
/// of the workers it returns sum exactly to the workload's totals.
pub proof fn lemma_retained_conservation(t: LoadTarget)
    requires
        t.num_workers >= 1,
        forall|i: int|
            0 <= i < t.num_workers ==> share_requests(t, i) > 0 && share_qps(t, i) > 0,
    ensures
        spec_partition(t).len() == t.num_workers,
        sum_requests_of(spec_partition(t)) == t.max_in_flight_ops,
        sum_qps_of(spec_partition(t)) == t.target_qps,
{
    lemma_retained_sums(t, t.num_workers as int);
    lemma_partition_conservation(t);
}

/// The validated setup of a run: every retained worker's share across
/// all workloads, and the statistics-window length.
pub struct RunPlan {
    pub shares: Vec<WorkerShare>,
    pub num_workers: u64,
    pub stat_delay_micros: u64,
}

/// The retained shares of a sequence of workloads, in workload order.
pub open spec fn flat_shares(ts: Seq<LoadTarget>) -> Seq<WorkerShare>
    decreases ts.len(),
{
    if ts.len() == 0 {
        Seq::empty()
    } else {
        flat_shares(ts.drop_last()) + spec_partition(ts.last())
    }
}

impl WorkerShare {
    /// The submission-tick period that realizes this worker's rate
    /// budget: one tick per `1_000_000 / target_qps` microseconds.
    pub fn request_delay_micros(&self) -> (d: u64)
        requires
            self.target_qps >= 1,
        ensures
            d == 1_000_000 as int / self.target_qps as int,
    {
        1_000_000 / self.target_qps
    }
}

impl BenchDriver {
    pub fn new(stat_collection_interval: u64) -> (d: BenchDriver)
        ensures
            d.stat_collection_interval == stat_collection_interval,
    {
        BenchDriver { stat_collection_interval }
    }

    /// Split one workload's budgets across its workers, dropping any
    /// worker whose request share or rate share comes out zero.
    pub fn partition(target: &LoadTarget) -> (shares: Vec<WorkerShare>)
        requires
            target.num_workers >= 1,
        ensures
            shares@ == spec_partition(*target),
            shares@.len() <= target.num_workers,
            forall|i: int|
                0 <= i < shares@.len()
                    ==> shares@[i].num_requests > 0 && shares@[i].target_qps > 0,
    {
        let n = target.num_workers;
        let mut num_requests: u64 = target.max_in_flight_ops / n;
        let mut target_qps: u64 = target.target_qps / n;
        let mut shares: Vec<WorkerShare> = Vec::new();
        let mut i: u64 = 0;
        while i < n
            invariant
                target.num_workers == n,
                n >= 1,
                0 <= i <= n,
                i < n ==> num_requests == target.max_in_flight_ops as int / n as int,
                i < n ==> target_qps == target.target_qps as int / n as int,
                shares@ == retained_shares(*target, i as int),
                shares@.len() <= i,
                forall|j: int|
                    0 <= j < shares@.len()
                        ==> shares@[j].num_requests > 0 && shares@[j].target_qps > 0,
            decreases n - i,
        {
            if i == n - 1 {
                proof {
                    lemma_share_bounds(*target, i as int);
                }
                num_requests = num_requests + target.max_in_flight_ops % n;
                target_qps = target_qps + target.target_qps % n;
            }
            if num_requests > 0 && target_qps > 0 {
                shares.push(WorkerShare { num_requests, target_qps });
            }
            i = i + 1;
        }
        shares
    }

    /// Build one worker per retained share, handing each its budget and
    /// the payload pool generated for it (exactly `num_requests` payloads).
    pub fn make_workers(
        &self,
        target: &LoadTarget,
        pools: Vec<Vec<Payload>>,
    ) -> (workers: Vec<BenchWorker>)
        requires
            target.num_workers >= 1,
            pools@.len() == spec_partition(*target).len(),
            forall|i: int|
                0 <= i < pools@.len()
                    ==> #[trigger] pools@[i]@.len() == spec_partition(*target)[i].num_requests,
        ensures
            workers@.len() == spec_partition(*target).len(),
            forall|i: int|
                0 <= i < workers@.len()
                    ==> #[trigger] workers@[i].num_requests == spec_partition(*target)[i].num_requests
                        && workers@[i].target_qps == spec_partition(*target)[i].target_qps
                        && workers@[i].payload@ == pools@[i]@,
    {
        let shares = Self::partition(target);
        let mut pools = pools;
        let mut workers: Vec<BenchWorker> = Vec::new();
        let mut i: usize = 0;
        let ghost all_pools = pools@;
        while i < shares.len()
            invariant
                shares@ == spec_partition(*target),
                all_pools.len() == shares@.len(),
                0 <= i <= shares@.len(),
                pools@ =~= all_pools.skip(i as int),
                workers@.len() == i,
                forall|j: int|
                    0 <= j < i
                        ==> #[trigger] workers@[j].num_requests == spec_partition(*target)[j].num_requests
                            && workers@[j].target_qps == spec_partition(*target)[j].target_qps
                            && workers@[j].payload@ == all_pools[j]@,
            decreases shares@.len() - i,
        {
            let pool = pools.remove(0);
            let share = shares[i];
            workers.push(BenchWorker {
                num_requests: share.num_requests,
                target_qps: share.target_qps,
                payload: pool,
            });
            i = i + 1;
        }
        workers
    }

    /// Validate a run's worker set before any worker starts: partition
    /// every workload, and reject the run as a configuration error —
    /// before any submission is made — exactly when every computed share
    /// was dropped, leaving no worker at all.
    pub fn plan_run(&self, targets: &Vec<LoadTarget>) -> (r: Result<RunPlan, BenchError>)
        requires
            forall|k: int| 0 <= k < targets@.len() ==> #[trigger] targets@[k].num_workers >= 1,
            self.stat_collection_interval as int <= u64::MAX as int / 1_000_000,
        ensures
            r is Err <==> flat_shares(targets@).len() == 0,
            (match r {
                Ok(plan) => {
                    &&& plan.shares@ == flat_shares(targets@)
                    &&& plan.num_workers == flat_shares(targets@).len()
                    &&& plan.num_workers >= 1
                    &&& plan.stat_delay_micros == 1_000_000 * self.stat_collection_interval
                    &&& forall|i: int|
                        0 <= i < plan.shares@.len()
                            ==> #[trigger] plan.shares@[i].num_requests > 0
                                && plan.shares@[i].target_qps > 0
                },
                Err(e) => e == BenchError::NoWorkers,
            }),
    {
        let mut shares: Vec<WorkerShare> = Vec::new();
        let mut k: usize = 0;
        while k < targets.len()
            invariant
                forall|k2: int|
                    0 <= k2 < targets@.len() ==> #[trigger] targets@[k2].num_workers >= 1,
                0 <= k <= targets@.len(),
                shares@ == flat_shares(targets@.subrange(0, k as int)),
                forall|i: int|
                    0 <= i < shares@.len()
                        ==> #[trigger] shares@[i].num_requests > 0 && shares@[i].target_qps > 0,
            decreases targets@.len() - k,
        {
            let mut more = Self::partition(&targets[k]);
            shares.append(&mut more);
            proof {
                assert(targets@.subrange(0, k as int + 1).drop_last() =~= targets@.subrange(
                    0,
                    k as int,
                ));
                assert(targets@.subrange(0, k as int + 1).last() == targets@[k as int]);
            }
            k = k + 1;
        }
        proof {
            assert(targets@.subrange(0, targets@.len() as int) =~= targets@);
        }
        if shares.len() == 0 {
            return Err(BenchError::NoWorkers);
        }
        let num_workers = shares.len() as u64;
        let stat_delay_micros = 1_000_000 * self.stat_collection_interval;
        Ok(RunPlan { shares, num_workers, stat_delay_micros })
    }
}

} // verus!
