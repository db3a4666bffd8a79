[package]
name = "cocaine_http_proxy"
version = "0.1.0"
edition = "2021"
publish = false

[dependencies]
byteorder = "1"
futures = "0.1"
hyper = "0.11"
rand = "0.8"
rmp-serde = "1"
serde = { version = "1", features = ["derive"] }
tokio-core = "0.1"
tokio-service = "0.1"

[dev-dependencies]
regex = "1"
serde_json = "1"
