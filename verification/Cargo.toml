[package]
name = "game_engine"
version = "0.1.0"
edition = "2021"
publish = false

[dependencies]
bevy = { version = "=0.17.3", default-features = false, features = ["std", "bevy_image"] }
wgpu-types = "=26.0.0"
serde = { version = "=1.0.229", features = ["derive"] }
shipyard = "=0.11.5"
