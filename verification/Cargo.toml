[package]
name = "open_intent"
version = "0.1.0"
edition = "2021"
publish = false

[dependencies]
url = "=2.5.8"
log = "0.4"
serde = { version = "=1.0.229", features = ["derive"] }
tauri = { version = "=2.12.5", default-features = false, features = ["wry"] }
tauri-plugin-fs = "=2.7.1"
