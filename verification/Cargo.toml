[package]
name = "rust-remote-shell"
version = "0.1.0"
edition = "2021"
publish = false

[dependencies]
astarte-device-sdk = "0.5"
async-trait = "0.1"
bson = "2"
clap = { version = "4", features = ["derive"] }
color-eyre = "0.6"
futures = "0.3"
rustls-pemfile = "1"
serde = { version = "1", features = ["derive"] }
serde_json = "1"
shellwords = "1"
thiserror = "1"
tokio = { version = "1", features = ["full"] }
tokio-rustls = "0.23"
tokio-tungstenite = { version = "0.18", features = ["rustls-tls-webpki-roots"] }
tokio-util = { version = "0.7", features = ["io"] }
tower = { version = "0.4", features = ["make"] }
tracing = "0.1"
tracing-subscriber = { version = "0.3", features = ["env-filter"] }
url = "2"
webpki-roots = "0.22"
