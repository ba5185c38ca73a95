[package]
name = "kopuz"
version = "0.1.0"
edition = "2021"
publish = false

[dependencies]
serde = { version = "=1.0.229", features = ["derive"] }
serde_json = "=1.0.154"
m3u8-rs = "=6.0.1"
base64 = "=0.22.1"
url = "=2.5.8"
directories = "=6.0.0"
reqwest = { version = "=0.12.28", default-features = false, features = ["json", "rustls-tls"] }
tonic = { version = "=0.12.3", default-features = false }
tokio = { version = "1", features = ["sync", "rt", "time", "fs", "io-util"] }
mpris-server = "0.8"
cpal = "0.15"
