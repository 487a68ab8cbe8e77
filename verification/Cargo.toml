[package]
name = "cursor_api"
version = "0.1.0"
edition = "2021"
publish = false

[dependencies]
serde = { version = "1", features = ["derive"] }
serde_json = "1"
base64-simd = "0.8"
itoa = "1"
arc-swap = "1"
http = "1"
bytes = "1"
image = { version = "0.25", default-features = false }
