[package]
name = "spdlog_telegram"
version = "0.1.0"
edition = "2021"
publish = false

[dependencies]
atomic = "=0.6.1"
reqwest = { version = "=0.13.5", default-features = false, features = ["blocking"] }
serde_json = "=1.0.151"
url = "=2.5.8"
spdlog-rs = "=0.5.3"

[dev-dependencies]
mockito = "*"
