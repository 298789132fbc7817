[package]
name = "dm_spine_bevy"
version = "0.1.0"
edition = "2021"
publish = false

[dependencies]
bevy = { version = "0.18", default-features = false, features = ["bevy_asset"] }
serde = { version = "1", features = ["derive"] }
thiserror = "2"
