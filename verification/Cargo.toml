[package]
name = "chat_engine"
version = "0.1.0"
edition = "2021"
publish = false

[dependencies]
futures = "0.3"
lazy_static = "1"
log = "0.4"
ollama-rs = { version = "*", default-features = false, features = ["stream"] }
rusqlite = { version = "*", features = ["bundled"] }
serde = { version = "1", features = ["derive"] }
serde_json = "1"
tauri = { version = "2", default-features = false }
tauri-plugin-log = "2"
tokio = { version = "1", features = ["sync", "macros", "rt"] }
tokio-util = "0.7"
