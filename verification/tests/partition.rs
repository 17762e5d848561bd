use bench_driver::driver::{BenchDriver, BenchError, LoadTarget, WorkerShare};
use bench_driver::payload::{ObjRef, Payload};

fn payload(workload_type: u64, id: u64) -> Payload {
    Payload {
        workload_type,
        object: ObjRef { id, version: 1 },
        gas: ObjRef { id: id + 1000, version: 1 },
    }
}

#[test]
fn new_keeps_interval() {
    let d = BenchDriver::new(7);
    assert_eq!(d.stat_collection_interval, 7);
}

#[test]
fn partition_even_split() {
    let t = LoadTarget { max_in_flight_ops: 10, target_qps: 10, num_workers: 2 };
    let shares = BenchDriver::partition(&t);
    assert_eq!(shares.len(), 2);
    assert_eq!(shares[0], WorkerShare { num_requests: 5, target_qps: 5 });
    assert_eq!(shares[1], WorkerShare { num_requests: 5, target_qps: 5 });
}

#[test]
fn partition_remainder_goes_to_last_worker() {
    let t = LoadTarget { max_in_flight_ops: 11, target_qps: 7, num_workers: 3 };
    let shares = BenchDriver::partition(&t);
    assert_eq!(shares.len(), 3);
    assert_eq!(shares[0], WorkerShare { num_requests: 3, target_qps: 2 });
    assert_eq!(shares[1], WorkerShare { num_requests: 3, target_qps: 2 });
    assert_eq!(shares[2], WorkerShare { num_requests: 5, target_qps: 3 });
    let total_requests: u64 = shares.iter().map(|s| s.num_requests).sum();
    let total_qps: u64 = shares.iter().map(|s| s.target_qps).sum();
    assert_eq!(total_requests, 11);
    assert_eq!(total_qps, 7);
}

#[test]
fn partition_conserves_totals_when_nobody_dropped() {
    for num_workers in 1..9u64 {
        for max_in_flight_ops in num_workers..40u64 {
            for target_qps in num_workers..20u64 {
                let t = LoadTarget { max_in_flight_ops, target_qps, num_workers };
                let shares = BenchDriver::partition(&t);
                assert_eq!(shares.len() as u64, num_workers);
                let total_requests: u64 = shares.iter().map(|s| s.num_requests).sum();
                let total_qps: u64 = shares.iter().map(|s| s.target_qps).sum();
                assert_eq!(total_requests, max_in_flight_ops);
                assert_eq!(total_qps, target_qps);
            }
        }
    }
}

#[test]
fn partition_drops_workers_with_zero_rate_share() {
    // Base rate share is zero, so only the last worker (who takes the
    // whole rate remainder) survives.
    let t = LoadTarget { max_in_flight_ops: 10, target_qps: 3, num_workers: 5 };
    let shares = BenchDriver::partition(&t);
    assert_eq!(shares.len(), 1);
    assert_eq!(shares[0], WorkerShare { num_requests: 2, target_qps: 3 });
}

#[test]
fn single_worker_takes_both_totals() {
    let t = LoadTarget { max_in_flight_ops: 13, target_qps: 7, num_workers: 1 };
    let shares = BenchDriver::partition(&t);
    assert_eq!(shares.len(), 1);
    assert_eq!(shares[0], WorkerShare { num_requests: 13, target_qps: 7 });
}

#[test]
fn partition_drops_everyone_on_zero_volume() {
    let t = LoadTarget { max_in_flight_ops: 0, target_qps: 10, num_workers: 2 };
    let shares = BenchDriver::partition(&t);
    assert!(shares.is_empty());
}

#[test]
fn plan_run_rejects_zero_workers() {
    let d = BenchDriver::new(1);
    let targets = vec![LoadTarget { max_in_flight_ops: 0, target_qps: 10, num_workers: 2 }];
    let err = d.plan_run(&targets).err().expect("plan must be rejected");
    assert_eq!(err, BenchError::NoWorkers);
    assert_eq!(err.message(), "No workers to run benchmark!");
}

#[test]
fn plan_run_flattens_all_workloads() {
    let d = BenchDriver::new(3);
    let targets = vec![
        LoadTarget { max_in_flight_ops: 10, target_qps: 10, num_workers: 2 },
        LoadTarget { max_in_flight_ops: 1, target_qps: 1, num_workers: 1 },
    ];
    let plan = d.plan_run(&targets).ok().expect("plan must succeed");
    assert_eq!(plan.num_workers, 3);
    assert_eq!(plan.stat_delay_micros, 3_000_000);
    assert_eq!(plan.shares.len(), 3);
    assert_eq!(plan.shares[0], WorkerShare { num_requests: 5, target_qps: 5 });
    assert_eq!(plan.shares[1], WorkerShare { num_requests: 5, target_qps: 5 });
    assert_eq!(plan.shares[2], WorkerShare { num_requests: 1, target_qps: 1 });
}

#[test]
fn request_delay_is_period_of_rate() {
    let share = WorkerShare { num_requests: 5, target_qps: 5 };
    assert_eq!(share.request_delay_micros(), 200_000);
    let share = WorkerShare { num_requests: 5, target_qps: 3 };
    assert_eq!(share.request_delay_micros(), 333_333);
}

#[test]
fn make_workers_hands_each_pool_to_its_share() {
    let d = BenchDriver::new(1);
    let t = LoadTarget { max_in_flight_ops: 3, target_qps: 2, num_workers: 2 };
    let shares = BenchDriver::partition(&t);
    assert_eq!(shares.len(), 2);
    assert_eq!(shares[0].num_requests, 1);
    assert_eq!(shares[1].num_requests, 2);
    let pools = vec![vec![payload(0, 1)], vec![payload(0, 2), payload(0, 3)]];
    let workers = d.make_workers(&t, pools);
    assert_eq!(workers.len(), 2);
    assert_eq!(workers[0].num_requests, 1);
    assert_eq!(workers[0].target_qps, 1);
    assert_eq!(workers[0].payload.len(), 1);
    assert_eq!(workers[0].payload[0].object.id, 1);
    assert_eq!(workers[1].num_requests, 2);
    assert_eq!(workers[1].target_qps, 1);
    assert_eq!(workers[1].payload.len(), 2);
    assert_eq!(workers[1].payload[1].object.id, 3);
}
