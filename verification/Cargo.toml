[package]
name = "clawd-core"
version = "0.1.0"
edition = "2021"
publish = false

[dependencies]
serde = { version = "1", features = ["derive"] }
serde_json = "1"
tiny_http = "0.12"
tauri = { version = "2", default-features = false, features = ["wry", "tray-icon"] }
