[package]
name = "nat2pub"
version = "0.1.0"
edition = "2021"
publish = false

[dependencies]
stun-format = { version = "=1.0.1", features = ["rfc3489"] }
igd = { version = "=0.12.1", features = ["aio"] }
tokio = { version = "1", features = ["rt-multi-thread", "net", "time", "io-util", "sync", "macros", "fs"] }
serde = { version = "1", features = ["derive"] }
toml = "*"
log = "*"
env_logger = "*"
anyhow = "*"
