[package]
name = "os_cloud_config"
version = "0.1.0"
edition = "2021"
publish = false

[dependencies]
dirs = "2.0"
log = "0.4"
serde = { version = "1.0", features = ["derive"] }
serde_yaml = "0.8"
