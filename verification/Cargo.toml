[package]
name = "live_bot"
version = "0.1.0"
edition = "2021"
publish = false

[dependencies]
anyhow = "1"
bincode = "2"
chrono = "0.4"
iceoryx2 = "0.3"
thiserror = "1"
tracing = "0.1"
