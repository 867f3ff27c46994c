[package]
name = "game_core"
version = "0.1.0"
edition = "2021"
publish = false

[dependencies]
fastrand = "=1.9.0"
ggez = { version = "0.8", default-features = false }
serde = { version = "1", features = ["derive"] }
serde_yaml = "0.9"
tracing = "0.1"
