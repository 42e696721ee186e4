[package]
name = "graphile_worker"
version = "0.1.0"
edition = "2021"
publish = false

[dependencies]
chrono = "=0.4.45"
futures = "=0.3.34"
tracing = "=0.1.44"
