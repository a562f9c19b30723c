[package]
name = "txledger"
version = "0.1.0"
edition = "2021"
publish = false

[dependencies]
clap = { version = "*", features = ["derive"] }
csv = "*"
env_logger = "*"
fastrand = "*"
fastrand-contrib = "*"
log = "*"
serde = { version = "*", features = ["derive"] }
