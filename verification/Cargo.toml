[package]
name = "magnet"
version = "0.1.0"
edition = "2021"
publish = false

[dependencies]
base64 = "=0.22.1"
crossbeam-queue = "=0.3.14"
getrandom = "=0.2.17"
keyring = { version = "=3.6.3", features = ["windows-native"] }
reqwest = { version = "=0.12.28", default-features = false, features = ["blocking", "json", "rustls-tls"] }
rustfft = "=6.4.1"
serde = { version = "=1.0.229", features = ["derive"] }
serde_json = "=1.0.154"
sha2 = "=0.10.9"
url = "=2.5.8"
