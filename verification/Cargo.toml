[package]
name = "host_proxy"
version = "0.1.0"
edition = "2021"
publish = false

[dependencies]
ansi_term = "0.12"
axum = { version = "0.5", features = ["ws"] }
axum-server = { version = "0.4", features = ["tls-rustls"] }
base64 = "0.21"
clap = { version = "3.2", features = ["derive"] }
futures-util = "0.3"
hyper = { version = "0.14", features = ["full"] }
hyper-tls = "0.5"
rustls = "0.20"
rustls-pemfile = "1"
serde = { version = "1", features = ["derive"] }
serde_yaml = "0.9"
sha1 = "0.10"
tokio = { version = "1", features = ["full"] }
tokio-tungstenite = "0.17"
validator = { version = "0.16", features = ["derive"] }
