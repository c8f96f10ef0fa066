[package]
name = "pipeweaver"
version = "0.1.0"
edition = "2021"
publish = false

[dependencies]
serde = { version = "=1.0.229", features = ["derive"] }
serde_json = "=1.0.154"
ulid = { version = "=1.2.1", features = ["serde"] }
anyhow = "=1.0.104"
log = "=0.4.35"
enum-map = { version = "=2.7.3", features = ["serde"] }
