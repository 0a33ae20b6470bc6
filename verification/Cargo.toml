[package]
name = "spotuify"
version = "0.1.0"
edition = "2021"
publish = false

[dependencies]
base64 = "=0.22.1"
chrono = "=0.4.45"
crossterm = "=0.29.0"
dotenvy = "=0.15.7"
open = "=5.4.5"
rand = "=0.10.3"
ratatui = { version = "=0.30.2", features = ["unstable-rendered-line-info"] }
reqwest = { version = "=0.12.28", default-features = false, features = ["blocking", "json", "rustls-tls"] }
serde = { version = "=1.0.229", features = ["derive"] }
serde_json = "=1.0.154"
sha2 = "=0.11.1"
tiny_http = "=0.12.0"
tokio = { version = "=1.54.1", features = ["full"] }
url = "=2.5.8"
