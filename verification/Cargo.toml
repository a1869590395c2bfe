[package]
name = "core_sim"
version = "0.1.0"
edition = "2021"
publish = false

[dependencies]
anyhow = "1"
clap = { version = "4", features = ["derive"] }
env_logger = "0.10"
log = "0.4"
nom = "7"
peg = "0.8"
serde = { version = "1", features = ["derive"] }
serde_json = "1"
terminal_size = "0.3"
