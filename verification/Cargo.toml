[package]
name = "pinball_scene"
version = "0.1.0"
edition = "2021"
publish = false

[dependencies]
bevy = { version = "0.8", default-features = false, features = ["bevy_winit", "bevy_core_pipeline", "bevy_pbr", "bevy_asset", "x11"] }
bevy_rapier3d = { version = "0.17", features = ["debug-render"] }
