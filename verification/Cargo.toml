[package]
name = "sbp_settings"
version = "0.1.0"
edition = "2021"
publish = false

[dependencies]
sbp = "=6.5.1"
crossbeam-channel = "=0.5.17"
crossbeam-utils = "=0.8.23"
parking_lot = "=0.12.5"
serde = { version = "=1.0.229", features = ["derive"] }
serde_yaml = "=0.9.34"
log = "=0.4.34"
lazy_static = "=1.5.1"
