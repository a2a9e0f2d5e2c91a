[package]
name = "saya_core"
version = "0.1.0"
edition = "2021"
publish = false

[dependencies]
starknet-types-core = "=0.2.4"
starknet-crypto = "=0.8.1"
starknet = "=0.17.0"
tokio = { version = "=1.53.2", features = ["full"] }
url = "=2.5.8"
log = "=0.4.34"
anyhow = "=1.0.104"
serde_json = "=1.0.151"
clap = { version = "=4.6.7", features = ["derive"] }
env_logger = "=0.11.11"
