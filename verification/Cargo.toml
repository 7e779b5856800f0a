[package]
name = "geyser_redis"
version = "0.1.0"
edition = "2021"
publish = false

[dependencies]
anyhow = "*"
bs58 = "*"
log = "*"
redis = "*"
serde = { version = "*", features = ["derive"] }
serde_json = "*"
