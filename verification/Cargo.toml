[package]
name = "cargo_eval"
version = "0.1.0"
edition = "2021"
publish = false

[dependencies]
clap = { version = "2", default-features = false }
env_logger = { version = "0.7", default-features = false }
log = "0.4"
serde = { version = "1", features = ["derive"] }
serde_json = "1"
shaman = "0.1"
