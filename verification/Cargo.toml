[package]
name = "serve_control"
version = "0.1.0"
edition = "2021"
publish = false

[dependencies]
anyhow = "=1.0.104"
clap = { version = "4", features = ["derive"] }
daemonize = "=0.5.0"
log = "=0.4.34"
nix = { version = "=0.26.4", features = ["signal", "user", "process"] }
toml = "=0.7.8"
