[package]
name = "ai_ping"
version = "0.1.0"
edition = "2021"
publish = false

[dependencies]
httpdate = "1"
serde = { version = "1", features = ["derive"] }
serde_json = "1"
reqwest = { version = "0.12", default-features = false, features = ["json", "stream", "rustls-tls"] }
tokio = { version = "1", features = ["time", "rt"] }
futures-util = "0.3"
parking_lot = "0.12"
tauri = { version = "2", default-features = false }
