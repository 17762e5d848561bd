[package]
name = "bench_driver"
version = "0.1.0"
edition = "2021"
publish = false

[dependencies]
anyhow = "1"
async-trait = "0.1"
futures = "0.3"
prometheus = "0.13"
tokio = { version = "1", features = ["macros", "rt", "sync", "time"] }
tracing = "0.1"
