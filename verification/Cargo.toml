[package]
name = "revsh"
version = "0.1.0"
edition = "2021"
publish = false

[dependencies]
anyhow = "1"
clap = "2"
env_logger = "0.9"
libc = "0.2"
log = "0.4"
tokio = { version = "1", features = ["full"] }
tokio-fd = "0.3"
tokio-native-tls = "0.3"
