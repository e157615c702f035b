[package]
name = "zerolaunch"
version = "0.1.0"
edition = "2021"
publish = false

[dependencies]
anyhow = "1"
async-trait = "0.1"
bincode = { version = "2", default-features = false, features = ["std"] }
blake3 = { version = "1", features = ["pure"] }
chrono = "0.4"
clap = { version = "4", features = ["derive"] }
dashmap = "6"
parking_lot = "0.12"
serde = { version = "1", features = ["derive"] }
serde_json = "1"
tokio = { version = "1", features = ["rt-multi-thread", "macros", "sync", "fs"] }
tracing = "0.1"
zip = { version = "2", default-features = false, features = ["deflate"] }
