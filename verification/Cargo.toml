[package]
name = "arb_detector"
version = "0.1.0"
edition = "2021"
publish = false

[dependencies]
ethers = { version = "=2.0.14", default-features = false, features = ["abigen"] }
rusqlite = { version = "=0.40.2", features = ["bundled"] }
chrono = "=0.4.45"
tokio = { version = "=1.54.1", features = ["macros", "rt-multi-thread", "time", "signal"] }
config = { version = "=0.15.27", default-features = false, features = ["toml"] }
serde = { version = "=1.0.229", features = ["derive"] }
eyre = "=0.6.14"
