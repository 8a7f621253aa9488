[package]
name = "trader_exec"
version = "0.1.0"
edition = "2021"
publish = false

[dependencies]
anyhow = "1"
async-trait = "0.1"
chrono = { version = "=0.4.45", features = ["serde"] }
config = { version = "0.13", default-features = false }
ethers-core = "=2.0.14"
ethers-middleware = { version = "=2.0.14", default-features = false }
ethers-providers = { version = "=2.0.14", default-features = false, features = ["ws", "rustls"] }
ethers-signers = "=2.0.14"
futures = "0.3"
hyper = { version = "0.14", features = ["server", "http1", "tcp"] }
k256 = "0.13"
metrics-exporter-prometheus = { version = "0.12", default-features = false }
parking_lot = "0.12"
redis = { version = "0.23", features = ["tokio-comp"] }
reqwest = { version = "0.11", default-features = false, features = ["json", "rustls-tls"] }
serde = { version = "1", features = ["derive"] }
serde_json = "1"
ta = "0.5"
thiserror = "1"
tokio = { version = "1", features = ["macros", "rt-multi-thread", "time", "signal"] }
tracing = "0.1"
tracing-subscriber = "0.3"
