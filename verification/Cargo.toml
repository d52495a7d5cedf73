[package]
name = "dir_browser"
version = "0.1.0"
edition = "2021"
publish = false

[dependencies]
chrono = { version = "=0.4.45", default-features = false, features = ["clock"] }
rfd = "0.15"
serde = { version = "=1.0.229", features = ["derive"] }
serde_json = "1"
