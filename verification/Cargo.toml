[package]
name = "directshare"
version = "0.1.0"
edition = "2021"
publish = false

[dependencies]
rand = "0.8"
tokio = { version = "1", features = ["full"] }
hyper = { version = "1", features = ["http1", "server"] }
hyper-util = { version = "0.1", features = ["tokio"] }
http-body-util = "0.1"
futures-util = "0.3"
tokio-util = { version = "0.7", features = ["io"] }
tokio-tar = "0.3"
igd = { version = "0.12", features = ["aio"] }
local-ip-address = "0.6"
log = "0.4"
pretty_env_logger = "0.5"
serde = { version = "1", features = ["derive"] }
toml = "0.8"
anyhow = "1"
thiserror = "1"
never-say-never = "6"
