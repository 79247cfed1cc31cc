[package]
name = "inference_core"
version = "0.1.0"
edition = "2021"
publish = false

[dependencies]
async-stream = "*"
async-trait = "*"
axum = "*"
futures = "*"
metrics = "*"
minijinja = "*"
nvml-wrapper = "*"
serde = { version = "*", features = ["derive"] }
thiserror = "*"
tokenizers = "*"
tokio = { version = "*", features = ["sync", "time", "rt", "macros"] }
tokio-stream = "*"
tracing = "*"
