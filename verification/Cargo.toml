[package]
name = "embassy_drivers"
version = "0.1.0"
edition = "2021"
publish = false

[dependencies]
atomic-polyfill = "1"
critical-section = { version = "1", features = ["std"] }
embassy-sync = "*"
embassy-time-driver = "0.1"
futures = { version = "0.3", default-features = false }
lpc55-hal = "*"
