[package]
name = "codex-orchestrator"
version = "0.1.0"
edition = "2021"
publish = false

[dependencies]
serde = { version = "=1.0.229", features = ["derive"] }
serde_json = "=1.0.154"
uuid = { version = "=1.29.0", features = ["v4"] }
tiktoken-rs = "=0.12.1"
tokio = { version = "=1.54.1", features = ["sync", "rt", "time"] }
async-trait = "=0.1.92"
anyhow = "=1.0.104"
dirs = "=7.0.0"
toml = "=1.1.8"
shlex = "1"
