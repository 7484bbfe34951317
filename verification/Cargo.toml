[package]
name = "gcopy_desktop"
version = "0.1.0"
edition = "2021"
publish = false

[dependencies]
png = "0.17"
arboard = "3"
reqwest = { version = "0.12", default-features = false, features = ["rustls-tls"] }
serde = { version = "1", features = ["derive"] }
serde_json = "1"
tokio = { version = "1", features = ["sync", "time"] }
dirs = "*"
log = "0.4"
env_logger = "*"
