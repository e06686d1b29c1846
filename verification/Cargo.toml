[package]
name = "miga"
version = "0.1.0"
edition = "2021"
publish = false

[dependencies]
anyhow = "1"
axum = "0.7"
cid = "0.11"
clap = { version = "4", features = ["derive"] }
env_logger = "0.11"
futures = "0.3"
libp2p = { version = "0.53", features = ["tokio", "tcp", "noise", "yamux", "kad", "ed25519"] }
log = "0.4"
tokio = { version = "1", features = ["full"] }
tower-http = { version = "0.5", features = ["fs"] }
