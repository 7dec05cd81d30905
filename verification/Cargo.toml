[package]
name = "docker2fl"
version = "0.1.0"
edition = "2021"
publish = false

[dependencies]
uuid = { version = "1", features = ["v4"] }
bollard = "0.16"
tokio = { version = "1", features = ["full"] }
axum = "0.7"
clap = { version = "4", features = ["derive"] }
serde = { version = "1", features = ["derive"] }
serde_json = "1"
toml = "0.8"
anyhow = "1"
futures-util = "0.3"
log = "0.4"
simple_logger = "*"
tempdir = "0.3"
tower-http = { version = "0.5", features = ["cors", "fs"] }
tokio-async-drop = "*"
