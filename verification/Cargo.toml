[package]
name = "locomotion"
version = "0.1.0"
edition = "2021"
publish = false

[dependencies]
bevy = { version = "=0.10.1", default-features = false, features = ["bevy_asset", "bevy_core_pipeline", "bevy_render", "bevy_sprite", "bevy_text", "bevy_winit", "png", "x11"] }
bevy_easings = { version = "=0.10.0", default-features = false }
bevy_embedded_assets = "=0.7.0"
bevy_pixel_camera = "=0.4.1"
bevy_rapier2d = "=0.21.0"
itertools = "=0.10.5"
