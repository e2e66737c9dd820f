[package]
name = "remotty"
version = "0.1.0"
edition = "2021"
publish = false

[dependencies]
anyhow = "1"
chrono = "0.4"
rusqlite = { version = "*", features = ["bundled"] }
serde_json = "1"
tokio = { version = "1", features = ["process", "io-util", "rt", "macros"] }
tracing = "0.1"
uuid = { version = "1", features = ["v4"] }
windows = { version = "*", features = ["Win32_Foundation", "Win32_Security_Cryptography"] }
