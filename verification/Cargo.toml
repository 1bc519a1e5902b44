[package]
name = "thalamus"
version = "0.1.0"
edition = "2021"
publish = false

[dependencies]
uuid = { version = "1", features = ["v4"] }
chrono = "0.4"
serde = { version = "1", features = ["derive"] }
serde_json = "1"
tokio = { version = "1", features = ["rt", "rt-multi-thread", "macros", "sync", "time"] }
async-trait = "0.1"
clap = { version = "4", features = ["derive"] }
thiserror = "1"
async-nats = "0.37"
futures = "0.3"
