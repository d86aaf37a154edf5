[package]
name = "baldr"
version = "0.1.0"
edition = "2021"
publish = false

[dependencies]
clap = { version = "=4.6.7", features = ["derive"] }
config = { version = "=0.15.27", features = ["preserve_order"] }
docker-api = "=0.14.0"
env_logger = "=0.11.11"
futures-util = "=0.3.34"
log = "=0.4.34"
walkdir = "=2.5.0"
