[package]
name = "app_termination"
version = "0.1.0"
edition = "2021"
publish = false

[dependencies]
log = "=0.4.34"
objc = "=0.2.7"
tauri = { version = "2", default-features = false, features = ["wry"] }
tokio = { version = "=1.54.1", features = ["rt", "rt-multi-thread"] }
