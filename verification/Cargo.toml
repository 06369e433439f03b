[package]
name = "remote_session"
version = "0.1.0"
edition = "2021"
publish = false

[dependencies]
serde_json = { version = "=1.0.154", features = ["preserve_order"] }
serde = { version = "=1.0.229", features = ["derive"] }
flutter_rust_bridge = { version = "=1.82.6", default-features = false }
lazy_static = "=1.5.1"
uuid = "=1.29.0"
