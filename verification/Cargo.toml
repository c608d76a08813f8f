[package]
name = "tempest"
version = "0.1.0"
edition = "2021"
publish = false

[dependencies]
weathervane = "*"
tempest-core = "*"
chrono = "0.4"
serde = { version = "1", features = ["derive"] }
tokio = { version = "1", features = ["time"] }
tracing = "0.1"
async-stream = "0.3"
notify-rust = "4"
open = "5"
