[package]
name = "media_queue"
version = "0.1.0"
edition = "2021"
publish = false

[dependencies]
uuid = { version = "1", features = ["v4"] }
serde = { version = "1", features = ["derive"] }
rfd = { version = "0.15", default-features = false, features = ["gtk3"] }
tauri = { version = "2", default-features = false }
