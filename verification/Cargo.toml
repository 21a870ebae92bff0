[package]
name = "kick_synth"
version = "0.2.1"
edition = "2021"
publish = false

[dependencies]
serde = { version = "1", features = ["derive"] }
serde_json = "1"
parking_lot = "0.12"
rfd = "0.15"
webbrowser = "1"
anyhow = "1"
