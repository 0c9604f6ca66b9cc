[package]
name = "netawait"
version = "0.1.0"
edition = "2021"
publish = false

[dependencies]
ipnetwork = "*"
log = "*"
clap = { version = "*", features = ["derive", "env"] }
env_logger = "*"
nix = { version = "*", features = ["event", "socket", "net"] }
