[package]
name = "leto"
version = "0.1.0"
edition = "2021"
publish = false

[dependencies]
anyhow = "1"
cpal = "*"
http = "1"
muda = "*"
open = "5"
reqwest = { version = "0.12", default-features = false, features = ["blocking", "rustls-tls"] }
rsrpc = "*"
serde = { version = "1", features = ["derive"] }
serde_json = "1"
tao = "*"
tokio = { version = "1", features = ["rt-multi-thread"] }
tracing = "0.1"
tracing-subscriber = "0.3"
wry = "*"
