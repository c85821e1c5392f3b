[package]
name = "katarl"
version = "0.1.0"
edition = "2021"
publish = false

[dependencies]
anyhow = "1"
env_logger = "0.11"
log = "0.4"
midir = "0.10"
parse_duration = "2"
serde = { version = "1", features = ["derive"] }
signal-hook = "0.3"
toml = "0.8"
xdg = "2"
