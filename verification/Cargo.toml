[package]
name = "mmb_core"
version = "0.1.0"
edition = "2021"
publish = false

[dependencies]
rust_decimal = { version = "=1.43.0", default-features = false, features = ["std"] }
tokio = { version = "=1.54.1", features = ["rt", "rt-multi-thread", "sync", "time", "macros"] }
futures = "=0.3.34"
parking_lot = "=0.12.5"
log = "=0.4.34"
anyhow = "=1.0.104"
chrono = "=0.4.45"
fern = "=0.6.2"
uuid = { version = "1", features = ["v4"] }
