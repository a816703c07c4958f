[package]
name = "vllm_pd_router"
version = "0.1.0"
edition = "2021"
publish = false

[dependencies]
async-trait = "0.1"
axum = { version = "0.8", default-features = false, features = ["json", "tokio", "http1"] }
reqwest = { version = "0.12", default-features = false, features = ["json", "stream"] }
serde_json = "1.0"
tokio = { version = "1", features = ["sync", "time", "rt", "macros"] }
tracing = "0.1"
uuid = { version = "1", features = ["v4"] }
