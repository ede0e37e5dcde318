[package]
name = "ci_cd_optimizer"
version = "0.1.0"
edition = "2021"
publish = false

[dependencies]
anyhow = "1"
axum = "0.7"
base64 = "0.13"
gitlab = "*"
hex = "0.4"
hmac = "0.12"
octocrab = "*"
reqwest = { version = "0.11", default-features = false }
serde = { version = "1", features = ["derive"] }
serde_json = "1"
serde_yaml = "0.9"
sha2 = "0.10"
subtle = "2"
tokio = { version = "1", features = ["macros", "rt-multi-thread", "sync", "net", "time"] }
tracing = "0.1"
tracing-subscriber = "0.3"
