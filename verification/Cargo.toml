[package]
name = "anvil_rpc"
version = "0.1.0"
edition = "2021"
publish = false

[dependencies]
axum = { version = "=0.8.9", features = ["ws"] }
tokio = { version = "=1.53.2", features = ["net", "rt", "io-util", "rt-multi-thread"] }

[dev-dependencies]
alloy-primitives = "=1.7.3"
