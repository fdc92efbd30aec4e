[package]
name = "aliyun_push"
version = "0.1.0"
edition = "2021"
publish = false

[dependencies]
serde = "1"
serde_json = "1"
tauri = { version = "2", default-features = false }
