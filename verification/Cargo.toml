[package]
name = "meeting_assistant"
version = "0.1.0"
edition = "2021"
publish = false

[dependencies]
anyhow = "1"
candle-core = { version = "0.8", default-features = false }
dirs = "5"
hound = "3.5"
log = "0.4"
reqwest = { version = "0.12", default-features = false, features = ["json", "multipart", "rustls-tls"] }
serde = { version = "1", features = ["derive"] }
tokio = { version = "1", features = ["fs", "io-util", "time", "rt"] }
whisper-rs = "0.13"
