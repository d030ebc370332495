[package]
name = "heartbeat_core"
version = "0.1.0"
edition = "2021"
publish = false

[dependencies]
bluest = "*"
futures-lite = "*"
once_cell = "*"
parking_lot = "*"
tokio = { version = "*", features = ["rt-multi-thread", "macros", "time"] }
