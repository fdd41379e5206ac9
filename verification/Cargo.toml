[package]
name = "pstate_update"
version = "0.1.0"
edition = "2021"
publish = false

[dependencies]
env_logger = "0.10"
log = "0.4"
serde = { version = "1", features = ["derive"] }
toml = "0.8"
zbus = "3"
