[package]
name = "perf_network"
version = "0.1.0"
edition = "2021"
publish = false

[dependencies]
chrono = "0.4"
fern = "0.6"
futures = "0.3"
hyper = { version = "0.14", features = ["full"] }
lazy_static = "1"
log = "0.4"
prometheus_exporter = "0.8"
tokio = { version = "1", features = ["full"] }
