[package]
name = "workbench"
version = "0.1.0"
edition = "2021"
publish = false

[dependencies]
sha2 = "=0.10.9"
hex = "=0.4.3"
uuid = { version = "=1.29.0", features = ["v7"] }
serde = { version = "=1.0.229", features = ["derive"] }
serde_json = "=1.0.154"
thiserror = "=2.0.21"
bytes = "=1.12.1"
tokio-util = { version = "=0.7.20", features = ["codec"] }
rustix = { version = "=1.1.6", features = ["fs", "process"] }
libc = "=0.2.191"
zeroize = "=1.9.1"
keyring = { version = "=3.6.3", features = ["apple-native", "async-secret-service", "tokio", "crypto-rust"] }
