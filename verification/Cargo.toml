[package]
name = "ya_net_gateway"
version = "0.1.0"
edition = "2021"
publish = false

[dependencies]
actix = "0.13"
actix-rt = "2"
actix-web = { version = "4", default-features = false, features = ["macros"] }
anyhow = "1"
clap = { version = "4", features = ["derive"] }
env_logger = "0.10"
futures = "0.3"
log = "0.4"
serde = { version = "1", features = ["derive"] }
thiserror = "1"
tokio = { version = "1", features = ["full"] }
tokio-stream = "0.1"
ya-relay-stack = "=0.4.1"
