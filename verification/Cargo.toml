[package]
name = "webvr_session"
version = "0.1.0"
edition = "2021"
publish = false

[dependencies]
time = "0.1"
ipc-channel = "*"
serde = { version = "1", features = ["derive"] }
