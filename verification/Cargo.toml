[package]
name = "mousekey"
version = "0.1.0"
edition = "2021"
publish = false

[dependencies]
dirs = "*"
evdev = "0.13"
toml = "*"
serde = { version = "1", features = ["derive"] }
thiserror = "*"
log = "0.4"
env_logger = "*"
