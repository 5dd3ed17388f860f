[package]
name = "bevy_kajiya_render"
version = "0.1.0"
edition = "2021"
publish = false

[dependencies]
bevy = { version = "=0.8.1", default-features = false }
glam = { version = "=0.21.3", features = ["serde"] }
kajiya = "=0.0.0"
ron = "=0.7.1"
serde = { version = "=1.0.229", features = ["derive"] }
