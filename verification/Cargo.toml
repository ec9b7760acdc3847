[package]
name = "pool_sniper"
version = "0.1.0"
edition = "2021"
publish = false

[dependencies]
solana-sdk = "=2.1.21"
bincode = "=1.3.3"
base64 = "=0.21.7"
serde_json = "=1.0.154"
serde = { version = "1", features = ["derive"] }
serde_yaml = "0.9"
anyhow = "1"
thiserror = "1"
async-trait = "0.1"
futures = "0.3"
log = "0.4"
tracing = "0.1"
tracing-subscriber = { version = "0.3", features = ["env-filter"] }
env_logger = "0.11"
dotenv = "0.15"
tokio = { version = "1", features = ["full"] }
tokio-util = "0.7"
reqwest = { version = "0.11", features = ["json"] }

[dev-dependencies]
borsh = "=1.8.1"
