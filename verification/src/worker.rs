//! The per-worker event loop's state machine. A worker owns a free pool
//! of payloads (a stack), a FIFO retry queue of failed requests, and a
//! count of outstanding completions, and reacts to exactly one of three
//! events at a time: a statistics tick (snapshot and reset the window),
//! a submission tick (resubmit the oldest retry, else submit fresh work,
//! else count a no-gas tick), and a completion arrival (recycle the
//! successor payload on success, queue the pending request on failure).
//!
//! Payload conservation is the state invariant: every payload is in the
//! free pool, in the retry queue, or held by an outstanding completion,
//! and the three together always account for the initial pool exactly.

use std::collections::VecDeque;
use vstd::prelude::*;
use crate::payload::{NextOutcome, Payload, PendingRequest, pending_of};
use crate::stats::Stats;

verus! {

/// What a submission tick decided: resubmit the oldest failed request,
/// submit a fresh request built from a free payload, or — with no retry
/// and no free payload — record resource exhaustion and do nothing.
#[derive(Clone, Copy, PartialEq, Eq, Structural, Debug)]
pub enum SubmitAction {
    Retry(PendingRequest),
    Fresh(PendingRequest),
    NoGas,
}

/// One worker's state: its payload pool, retry queue, outstanding
/// completions, and the rolling window counters.
pub struct WorkerState {
    pub free_pool: Vec<Payload>,
    pub retry_queue: VecDeque<PendingRequest>,
    pub outstanding: u64,
    pub initial_count: u64,
    pub num_success: u64,
    pub num_error: u64,
    pub num_no_gas: u64,
    pub num_submitted: u64,
    pub num_in_flight: u64,
    pub min_latency_micros: u64,
    pub max_latency_micros: u64,
}

impl WorkerState {
    /// Payload conservation: the free pool, the retry queue and the
    /// outstanding completions together account for the initial pool
    /// exactly; and the in-flight counter counts the payloads that are
    /// out of the free pool.
    pub open spec fn wf(self) -> bool {
        &&& self.free_pool@.len() + self.retry_queue@.len() + self.outstanding as int
            == self.initial_count as int
        &&& self.num_in_flight as int == self.retry_queue@.len() + self.outstanding as int
    }

    /// A fresh worker: the whole pool free, nothing pending, all window
    /// counters zero and the latency bounds at their sentinel extremes.
    pub fn new(payloads: Vec<Payload>) -> (w: WorkerState)
        ensures
            w.wf(),
            w.free_pool@ == payloads@,
            w.retry_queue@.len() == 0,
            w.outstanding == 0,
            w.initial_count == payloads@.len(),
            w.num_success == 0,
            w.num_error == 0,
            w.num_no_gas == 0,
            w.num_submitted == 0,
            w.num_in_flight == 0,
            w.min_latency_micros == u64::MAX,
            w.max_latency_micros == 0,
    {
        let initial_count = payloads.len() as u64;
        WorkerState {
            free_pool: payloads,
            retry_queue: VecDeque::new(),
            outstanding: 0,
            initial_count,
            num_success: 0,
            num_error: 0,
            num_no_gas: 0,
            num_submitted: 0,
            num_in_flight: 0,
            min_latency_micros: u64::MAX,
            max_latency_micros: 0,
        }
    }

    /// Statistics tick: snapshot the current window into a `Stats` and
    /// reset the window — counters to zero, latency bounds to their
    /// sentinel extremes — leaving the in-flight count and the pools
    /// untouched.
    pub fn on_stat_tick(&mut self, worker_id: usize, duration_micros: u64) -> (s: Stats)
        requires
            old(self).wf(),
        ensures
            final(self).wf(),
            s == (Stats {
                id: worker_id,
                num_success: old(self).num_success,
                num_error: old(self).num_error,
                num_no_gas: old(self).num_no_gas,
                num_submitted: old(self).num_submitted,
                num_in_flight: old(self).num_in_flight,
                min_latency_micros: old(self).min_latency_micros,
                max_latency_micros: old(self).max_latency_micros,
                duration_micros: duration_micros,
            }),
            final(self).num_success == 0,
            final(self).num_error == 0,
            final(self).num_no_gas == 0,
            final(self).num_submitted == 0,
            final(self).min_latency_micros == u64::MAX,
            final(self).max_latency_micros == 0,
            final(self).num_in_flight == old(self).num_in_flight,
            final(self).free_pool@ == old(self).free_pool@,
            final(self).retry_queue@ == old(self).retry_queue@,
            final(self).outstanding == old(self).outstanding,
            final(self).initial_count == old(self).initial_count,
    {
        let s = Stats {
            id: worker_id,
            num_success: self.num_success,
            num_error: self.num_error,
            num_no_gas: self.num_no_gas,
            num_submitted: self.num_submitted,
            num_in_flight: self.num_in_flight,
            min_latency_micros: self.min_latency_micros,
            max_latency_micros: self.max_latency_micros,
            duration_micros,
        };
        self.num_success = 0;
        self.num_error = 0;
        self.num_no_gas = 0;
        self.num_submitted = 0;
        self.min_latency_micros = u64::MAX;
        self.max_latency_micros = 0;
        s
    }

    /// Submission tick: exactly one action, with retry strictly
    /// prioritized over fresh work. A resubmitted retry counts toward
    /// the window's errors and submissions; a fresh submission counts
    /// toward its submissions and the in-flight count; with neither a
    /// retry nor a free payload available, only the no-gas counter
    /// moves. Either submission registers one outstanding completion.
    pub fn on_submit_tick(&mut self) -> (action: SubmitAction)
        requires
            old(self).wf(),
            old(self).retry_queue@.len() > 0
                ==> old(self).num_error < u64::MAX && old(self).num_submitted < u64::MAX,
            old(self).retry_queue@.len() == 0 && old(self).free_pool@.len() > 0
                ==> old(self).num_submitted < u64::MAX,
            old(self).retry_queue@.len() == 0 && old(self).free_pool@.len() == 0
                ==> old(self).num_no_gas < u64::MAX,
        ensures
            final(self).wf(),
            final(self).initial_count == old(self).initial_count,
            final(self).num_success == old(self).num_success,
            final(self).min_latency_micros == old(self).min_latency_micros,
            final(self).max_latency_micros == old(self).max_latency_micros,
            old(self).retry_queue@.len() > 0 ==> {
                &&& action == SubmitAction::Retry(old(self).retry_queue@[0])
                &&& final(self).retry_queue@ == old(self).retry_queue@.subrange(
                    1,
                    old(self).retry_queue@.len() as int,
                )
                &&& final(self).free_pool@ == old(self).free_pool@
                &&& final(self).outstanding == old(self).outstanding + 1
                &&& final(self).num_error == old(self).num_error + 1
                &&& final(self).num_submitted == old(self).num_submitted + 1
                &&& final(self).num_no_gas == old(self).num_no_gas
                &&& final(self).num_in_flight == old(self).num_in_flight
            },
            old(self).retry_queue@.len() == 0 && old(self).free_pool@.len() > 0 ==> {
                &&& action == SubmitAction::Fresh(pending_of(old(self).free_pool@.last()))
                &&& final(self).free_pool@ == old(self).free_pool@.drop_last()
                &&& final(self).retry_queue@ == old(self).retry_queue@
                &&& final(self).outstanding == old(self).outstanding + 1
                &&& final(self).num_in_flight == old(self).num_in_flight + 1
                &&& final(self).num_submitted == old(self).num_submitted + 1
                &&& final(self).num_error == old(self).num_error
                &&& final(self).num_no_gas == old(self).num_no_gas
            },
            old(self).retry_queue@.len() == 0 && old(self).free_pool@.len() == 0 ==> {
                &&& action == SubmitAction::NoGas
                &&& final(self).free_pool@ == old(self).free_pool@
                &&& final(self).retry_queue@ == old(self).retry_queue@
                &&& final(self).outstanding == old(self).outstanding
                &&& final(self).num_in_flight == old(self).num_in_flight
                &&& final(self).num_submitted == old(self).num_submitted
                &&& final(self).num_error == old(self).num_error
                &&& final(self).num_no_gas == old(self).num_no_gas + 1
            },
    {
        // If a retry is available, resubmit it: retries share the same
        // rate limit as fresh work and are drained first.
        if let Some(pending) = self.retry_queue.pop_front() {
            self.num_error = self.num_error + 1;
            self.num_submitted = self.num_submitted + 1;
            self.outstanding = self.outstanding + 1;
            return SubmitAction::Retry(pending);
        }
        // Otherwise submit a fresh request, if a payload is free.
        if let Some(payload) = self.free_pool.pop() {
            self.num_in_flight = self.num_in_flight + 1;
            self.num_submitted = self.num_submitted + 1;
            self.outstanding = self.outstanding + 1;
            let request = payload.make_request();
            return SubmitAction::Fresh(PendingRequest { request, payload });
        }
        self.num_no_gas = self.num_no_gas + 1;
        SubmitAction::NoGas
    }

    /// Completion arrival: a failure queues its pending request at the
    /// back of the retry queue; a success recycles the successor payload
    /// into the free pool, counts the success, and widens the window's
    /// latency bounds.
    pub fn on_completion(&mut self, outcome: NextOutcome)
        requires
            old(self).wf(),
            old(self).outstanding > 0,
            outcome is Completed ==> old(self).num_success < u64::MAX,
        ensures
            final(self).wf(),
            final(self).initial_count == old(self).initial_count,
            final(self).num_error == old(self).num_error,
            final(self).num_no_gas == old(self).num_no_gas,
            final(self).num_submitted == old(self).num_submitted,
            final(self).outstanding == old(self).outstanding - 1,
            (match outcome {
                NextOutcome::Failed(pending) => {
                    &&& final(self).retry_queue@ == old(self).retry_queue@.push(pending)
                    &&& final(self).free_pool@ == old(self).free_pool@
                    &&& final(self).num_success == old(self).num_success
                    &&& final(self).num_in_flight == old(self).num_in_flight
                    &&& final(self).min_latency_micros == old(self).min_latency_micros
                    &&& final(self).max_latency_micros == old(self).max_latency_micros
                },
                NextOutcome::Completed(latency_micros, new_payload) => {
                    &&& final(self).free_pool@ == old(self).free_pool@.push(new_payload)
                    &&& final(self).retry_queue@ == old(self).retry_queue@
                    &&& final(self).num_success == old(self).num_success + 1
                    &&& final(self).num_in_flight == old(self).num_in_flight - 1
                    &&& final(self).max_latency_micros == (if latency_micros
                        > old(self).max_latency_micros {
                        latency_micros
                    } else {
                        old(self).max_latency_micros
                    })
                    &&& final(self).min_latency_micros == (if latency_micros
                        < old(self).min_latency_micros {
                        latency_micros
                    } else {
                        old(self).min_latency_micros
                    })
                },
            }),
    {
        match outcome {
            NextOutcome::Failed(pending) => {
                self.retry_queue.push_back(pending);
                self.outstanding = self.outstanding - 1;
            },
            NextOutcome::Completed(latency_micros, new_payload) => {
                self.num_success = self.num_success + 1;
                self.num_in_flight = self.num_in_flight - 1;
                self.free_pool.push(new_payload);
                if latency_micros > self.max_latency_micros {
                    self.max_latency_micros = latency_micros;
                }
                if latency_micros < self.min_latency_micros {
                    self.min_latency_micros = latency_micros;
                }
                self.outstanding = self.outstanding - 1;
            },
        }
    }
}

/// Payload conservation law: in every well-formed worker state, the free
/// pool, the retry queue and the outstanding completions together hold
/// exactly the initial number of payloads — none is duplicated or lost,
/// each success having recycled exactly one successor.
pub proof fn lemma_payload_conservation(w: WorkerState)
    requires
        w.wf(),
    ensures
        w.free_pool@.len() + w.retry_queue@.len() + w.outstanding as int == w.initial_count as int,
        w.free_pool@.len() + w.num_in_flight as int == w.initial_count as int,
{
}

} // verus!
