use bench_driver::driver::{BenchDriver, LoadTarget};
use bench_driver::payload::{classify_response, BackendResult, Effects, NextOutcome, ObjRef, Payload};
use bench_driver::stats::{summarize, Stats, StatsAggregator};
use bench_driver::timer::IntervalTimer;
use bench_driver::worker::{SubmitAction, WorkerState};

fn window(id: usize, num_success: u64, min_latency_micros: u64, max_latency_micros: u64) -> Stats {
    Stats {
        id,
        num_success,
        num_error: 2,
        num_no_gas: 1,
        num_submitted: num_success + 2,
        num_in_flight: 3,
        min_latency_micros,
        max_latency_micros,
        duration_micros: 1_000_000,
    }
}

#[test]
fn summarize_sums_and_latency_bounds() {
    let stats = vec![window(0, 4, 7_000, 12_000), window(1, 6, 5_000, 9_000)];
    let g = summarize(&stats);
    assert_eq!(g.num_success, 10);
    assert_eq!(g.num_error, 4);
    assert_eq!(g.num_no_gas, 2);
    assert_eq!(g.num_submitted, 14);
    assert_eq!(g.num_in_flight, 6);
    assert_eq!(g.min_latency_micros, 5_000);
    assert_eq!(g.max_latency_micros, 12_000);
}

#[test]
fn summarize_of_nothing_keeps_sentinels() {
    let g = summarize(&vec![]);
    assert_eq!(g.num_success, 0);
    assert_eq!(g.min_latency_micros, u64::MAX);
    assert_eq!(g.max_latency_micros, 0);
}

#[test]
fn idle_worker_window_does_not_disturb_latency_bounds() {
    // A worker with no success reports sentinel extremes; they lose
    // against any real measurement.
    let stats = vec![window(0, 4, 7_000, 12_000), window(1, 0, u64::MAX, 0)];
    let g = summarize(&stats);
    assert_eq!(g.min_latency_micros, 7_000);
    assert_eq!(g.max_latency_micros, 12_000);
}

#[test]
fn aggregator_keeps_latest_window_per_worker() {
    let mut a = StatsAggregator::new(2);
    a.on_receive(window(0, 4, 7_000, 12_000));
    a.on_receive(window(0, 9, 6_000, 13_000));
    assert_eq!(a.stat_collection.len(), 1);
    assert_eq!(a.stat_collection[0].num_success, 9);
    let (g, _) = a.on_receive(window(1, 1, 8_000, 8_000));
    assert_eq!(a.stat_collection.len(), 2);
    assert_eq!(g.num_success, 10);
    assert_eq!(g.min_latency_micros, 6_000);
    assert_eq!(g.max_latency_micros, 13_000);
}

#[test]
fn aggregator_emits_every_num_workers_receipts() {
    let mut a = StatsAggregator::new(3);
    let mut emissions = Vec::new();
    for receipt in 1..=9usize {
        let (_, emit) = a.on_receive(window(receipt % 3, 1, 1_000, 1_000));
        if emit {
            emissions.push(receipt);
        }
    }
    assert_eq!(emissions, vec![3, 6, 9]);
}

#[test]
fn timer_delays_missed_ticks_instead_of_batching() {
    let mut t = IntervalTimer::new(0, 100);
    // The first tick is due immediately.
    assert!(t.poll(0));
    assert!(!t.poll(50));
    assert!(t.poll(100));
    assert!(!t.poll(199));
    // A late poll fires once and reschedules a full period ahead of the
    // fire instant, not of the missed deadline.
    assert!(t.poll(250));
    assert!(!t.poll(349));
    assert!(t.poll(350));
}

#[test]
fn timer_respects_rate_ceiling_over_a_window() {
    let mut t = IntervalTimer::new(0, 100);
    let mut fires: u64 = 0;
    // Poll far more often than the period over a half-open window of
    // 1000 microseconds: at most ceil(1000 / 100) == 10 fires.
    for now in 0..1000u64 {
        if t.poll(now) {
            fires += 1;
        }
    }
    assert_eq!(fires, 10);
}

fn always_succeeding_backend(pending: bench_driver::payload::PendingRequest) -> NextOutcome {
    let effects = Effects {
        mutated: vec![ObjRef {
            id: pending.payload.object.id,
            version: pending.payload.object.version + 1,
        }],
        gas: ObjRef { id: pending.payload.gas.id, version: pending.payload.gas.version + 1 },
    };
    classify_response(pending, BackendResult::EffectsCert(effects), 10_000)
}

#[test]
fn two_worker_run_converges_to_the_full_pool() {
    // One workload, two workers, 10 requests and 10 qps in total: each
    // worker gets 5 of each; a backend that always succeeds in 10 ms
    // yields a global window of 10 successes at 10 ms latency.
    let driver = BenchDriver::new(1);
    let t = LoadTarget { max_in_flight_ops: 10, target_qps: 10, num_workers: 2 };
    let plan = driver.plan_run(&vec![t]).ok().expect("plan must succeed");
    assert_eq!(plan.num_workers, 2);
    assert_eq!(plan.shares[0].num_requests, 5);
    assert_eq!(plan.shares[1].num_requests, 5);
    assert_eq!(plan.shares[0].target_qps, 5);
    assert_eq!(plan.shares[1].target_qps, 5);

    let pools: Vec<Vec<Payload>> = (0..2)
        .map(|wi| {
            (0..5)
                .map(|k| Payload {
                    workload_type: 0,
                    object: ObjRef { id: 100 * wi + k, version: 1 },
                    gas: ObjRef { id: 100 * wi + k + 50, version: 1 },
                })
                .collect()
        })
        .collect();
    let workers = driver.make_workers(&t, pools);

    let mut aggregator = StatsAggregator::new(plan.num_workers);
    let mut last_emitted = None;
    for (i, worker) in workers.into_iter().enumerate() {
        let mut state = WorkerState::new(worker.payload);
        // Submit the worker's whole budget and let every request succeed.
        for _ in 0..worker.num_requests {
            let pending = match state.on_submit_tick() {
                SubmitAction::Fresh(p) => p,
                _ => panic!("expected fresh work"),
            };
            state.on_completion(always_succeeding_backend(pending));
        }
        assert_eq!(state.num_success, 5);
        assert_eq!(state.free_pool.len(), 5);
        let s = state.on_stat_tick(i, plan.stat_delay_micros);
        let (g, emit) = aggregator.on_receive(s);
        if emit {
            last_emitted = Some(g);
        }
    }
    let g = last_emitted.expect("the second receipt must emit a summary");
    assert_eq!(g.num_success, 10);
    assert_eq!(g.num_error, 0);
    assert_eq!(g.num_no_gas, 0);
    assert_eq!(g.num_submitted, 10);
    assert_eq!(g.num_in_flight, 0);
    assert_eq!(g.min_latency_micros, 10_000);
    assert_eq!(g.max_latency_micros, 10_000);
}
