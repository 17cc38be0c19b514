[package]
name = "eth_p2p_crawler"
version = "0.1.0"
edition = "2021"
publish = false

[dependencies]
alloy-consensus = { version = "=1.8.3", default-features = false, features = ["std", "secp256k1"] }
alloy-eips = { version = "=1.8.3", default-features = false, features = ["std"] }
alloy-primitives = { version = "=1.7.3", default-features = false, features = ["std"] }
anyhow = "1"
axum = { version = "0.7", default-features = false, features = ["http1", "json", "tokio"] }
chrono = { version = "0.4", default-features = false, features = ["std", "serde"] }
crossterm = "0.28"
dashmap = "=6.2.1"
futures-util = { version = "0.3", default-features = false, features = ["std"] }
num-format = "=0.4.4"
ratatui = { version = "0.29", default-features = false, features = ["crossterm"] }
secp256k1 = "0.30"
serde = { version = "1", features = ["derive"] }
tokio = { version = "1", features = ["macros", "rt-multi-thread", "signal", "sync", "time"] }
tracing = "0.1"
