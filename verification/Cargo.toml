[package]
name = "kalshi"
version = "0.1.0"
edition = "2021"
publish = false

[dependencies]
openssl = "=0.10.81"
reqwest = { version = "=0.12.28", default-features = false, features = ["json", "native-tls"] }
serde = { version = "=1.0.229", features = ["derive"] }
serde_json = "=1.0.154"
tracing = "=0.1.44"
url = "=2.5.8"
