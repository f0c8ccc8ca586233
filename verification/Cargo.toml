[package]
name = "dfu_core"
version = "0.1.0"
edition = "2021"
publish = false

[dependencies]
rusb = { version = "0.9", features = ["vendored"] }
thiserror = "1"
clap = { version = "4", features = ["derive"] }
indicatif = "0.17"
log = "0.4"
env_logger = "0.11"
