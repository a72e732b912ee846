[package]
name = "agentx"
version = "0.1.0"
edition = "2021"
publish = false

[dependencies]
dashmap = "5"
chrono = { version = "0.4", default-features = false, features = ["clock", "std"] }
uuid = { version = "1", features = ["v4"] }
rand = "0.8"
tonic = { version = "0.10", default-features = false }
reqwest = { version = "0.11", default-features = false }
serde = { version = "1", features = ["derive"] }
serde_json = "1"
toml = "0.8"
tokio = { version = "1", features = ["rt-multi-thread", "macros", "sync", "time", "fs"] }
thiserror = "1"
tracing = "0.1"
async-trait = "0.1"
