[package]
name = "cda_runtime_update"
version = "0.1.0"
edition = "2021"
publish = false

[dependencies]
async-trait = "0.1"
serde = "1"
tokio = { version = "1", features = ["sync", "fs", "rt", "macros"] }
toml = "0.8"
tracing = "0.1"
