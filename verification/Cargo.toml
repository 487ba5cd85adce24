[package]
name = "chessvm"
version = "0.1.0"
edition = "2021"
publish = false

[dependencies]
shakmaty = "=0.27.3"
chrono = "=0.4.45"
avalanche-types = { version = "=0.1.5", default-features = false }
alloy-primitives = { version = "=1.7.3", default-features = false, features = ["std"] }
serde = { version = "=1.0.229", features = ["derive"] }
serde_json = "=1.0.154"
tokio = { version = "=1.54.1", features = ["sync", "rt"] }
