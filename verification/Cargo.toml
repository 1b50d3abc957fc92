[package]
name = "n2n_maid"
version = "0.1.0"
edition = "2021"
publish = false

[dependencies]
anyhow = "1"
dirs = "5"
env_logger = "0.11"
log = "0.4"
nix = { version = "0.29", features = ["hostname", "signal", "user"] }
serde = { version = "1", features = ["derive"] }
serde_json = "1"
tokio = { version = "1", features = ["sync"] }
toml = "0.8"
which = "6"
