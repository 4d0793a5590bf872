[package]
name = "koralreef"
version = "0.1.0"
edition = "2021"
publish = false

[dependencies]
aes-gcm = "0.10"
anyhow = "1"
base64 = "0.22"
bs58 = "*"
clap = { version = "4", features = ["derive"] }
env_logger = "*"
log = "0.4"
rand = "0.8"
rusqlite = { version = "*", features = ["bundled"] }
serde = { version = "1", features = ["derive"] }
serde_json = "1"
tokio = { version = "1", features = ["macros", "rt-multi-thread", "time", "signal", "sync"] }
tokio-util = "*"
toml = "*"
zeroize = "1"
