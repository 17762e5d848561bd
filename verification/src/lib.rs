//! A rate-limited load-generation core: partitioning a request/rate budget
//! across workers, the per-worker event loop (submission ticks, statistics
//! ticks, completion arrivals), and the single-consumer statistics
//! aggregation that merges per-worker windows into a global summary.

pub mod driver;
pub mod payload;
pub mod stats;
pub mod timer;
pub mod worker;
