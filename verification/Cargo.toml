[package]
name = "lead_into_wine"
version = "0.1.0"
edition = "2021"
publish = false

[dependencies]
rand = "=0.10.3"
serde = { version = "=1.0.229", features = ["derive"] }
bevy = { version = "=0.19.1", default-features = false }
