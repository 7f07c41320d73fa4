[package]
name = "secret_scaler"
version = "0.1.0"
edition = "2021"
publish = false

[dependencies]
anyhow = "=1.0.104"
async-trait = "=0.1.92"
serde_json = "=1.0.154"
tokio = { version = "=1.54.1", default-features = false, features = ["sync"] }
tracing = "=0.1.44"
wadm-types = "=0.8.3"
