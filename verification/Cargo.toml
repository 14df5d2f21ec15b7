[package]
name = "mecha_agent"
version = "0.1.0"
edition = "2021"
publish = false

[dependencies]
sha256 = "=1.6.0"
regex = "=1.13.1"
chrono = "=0.4.45"
rand = "=0.8.8"
openssl = "=0.10.82"
anyhow = "=1.0.104"
serde = { version = "=1.0.229", features = ["derive"] }
serde_json = "=1.0.154"
serde_yaml = "=0.9.34"
tokio = { version = "=1.54.1", features = ["rt-multi-thread", "macros", "sync", "time"] }
tokio-util = "=0.7.20"
tonic = { version = "=0.12.3", default-features = false }
reqwest = { version = "*", default-features = false, features = ["json", "native-tls"] }
local-ip-address = "*"
