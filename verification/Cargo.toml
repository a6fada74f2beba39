[package]
name = "vrc_yutils"
version = "0.1.0"
edition = "2021"
publish = false

[dependencies]
anyhow = "=1.0.104"
async-once-cell = "=0.5.4"
axum = "=0.7.9"
base64 = "=0.22.1"
futures-util = "=0.3.34"
http-body-util = "=0.1.5"
hyper = { version = "=1.12.0", features = ["client", "http1"] }
hyper-util = { version = "=0.1.21", features = ["tokio"] }
include_dir = "=0.7.4"
once_cell = "=1.21.4"
regex = "=1.13.1"
rustls-pki-types = "=1.15.1"
serde = { version = "=1.0.229", features = ["derive"] }
serde_json = "=1.0.154"
tokio = { version = "=1.54.1", features = ["full"] }
tokio-rustls = "=0.25.0"
tokio-tungstenite = { version = "=0.21.0", features = ["rustls-tls-webpki-roots"] }
tower-http = { version = "=0.5.2", features = ["cors"] }
tower-serve-static = "=0.1.2"
webpki-roots = "=0.26.11"
