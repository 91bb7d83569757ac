[package]
name = "presence"
version = "0.1.0"
edition = "2021"
publish = false

[dependencies]
clap = { version = "4", features = ["derive"] }
env_logger = "0.11"
log = "0.4"

[dev-dependencies]
bincode = "1.3"
serde = "1"
