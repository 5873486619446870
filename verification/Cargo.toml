[package]
name = "chia_peer"
version = "0.1.0"
edition = "2021"
publish = false

[dependencies]
anyhow = "=1.0.104"
chia-protocol = "=0.36.1"
chia-sdk-client = { version = "=0.36.0", default-features = false, features = ["native-tls"] }
chia-traits = "=0.36.1"
native-tls = "=0.2.18"
tokio = { version = "=1.53.2", features = ["rt-multi-thread", "macros", "sync", "net", "time"] }
