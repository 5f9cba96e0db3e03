[package]
name = "turkcode"
version = "0.1.0"
edition = "2021"
publish = false

[dependencies]
chrono = { version = "=0.4.45", default-features = false, features = ["std", "clock"] }
serde = { version = "=1.0.229", features = ["derive"] }
serde_json = "=1.0.154"
tokio = { version = "=1.54.1", features = ["rt-multi-thread", "sync", "time"] }
log = "=0.4.34"
env_logger = { version = "=0.11.11", default-features = false }
tauri = { version = "2", default-features = false, features = ["wry"] }
