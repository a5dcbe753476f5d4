[package]
name = "metric_storage"
version = "0.1.0"
edition = "2021"
publish = false

[dependencies]
adbc_core = "=0.24.0"
adbc_driver_manager = "=0.24.0"
arrow-array = "=59.3.1"
arrow-schema = "=59.3.1"
async-trait = "=0.1.92"
duckdb = "=1.20000.0"
tokio = { version = "=1.54.1", features = ["sync", "rt", "time"] }
tonic = "=0.14.6"
