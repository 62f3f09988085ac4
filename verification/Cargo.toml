[package]
name = "bastion"
version = "0.1.0"
edition = "2021"
publish = false

[dependencies]
sha2 = "0.10"
hex = "0.4"
uuid = { version = "1", features = ["v4"] }
chrono = "0.4"
url = "2"
bs58 = "0.5"
serde = { version = "1", features = ["derive"] }
serde_json = "1"
serde_yaml = "0.9"
sled = "0.34"
tokio = { version = "1", features = ["full"] }
dashmap = "6"
axum = "0.8"
reqwest = { version = "0.12", default-features = false, features = ["json", "blocking"] }
async-trait = "0.1"
thiserror = "2"
tracing = "0.1"
tracing-subscriber = { version = "0.3", features = ["env-filter", "json"] }
toml = "0.8"
anyhow = "1"
