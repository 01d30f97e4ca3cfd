[package]
name = "iroh_willow"
version = "0.1.0"
edition = "2021"
publish = false

[dependencies]
anyhow = "1"
bytes = "1"
futures-concurrency = "7"
futures-lite = "2"
futures-util = "0.3"
iroh-base = { version = "0.28", default-features = false, features = ["hash", "key"] }
serde = { version = "1", features = ["derive"] }
thiserror = "1"
tokio = { version = "1", features = ["io-util", "rt", "macros", "sync"] }
tracing = "0.1"
