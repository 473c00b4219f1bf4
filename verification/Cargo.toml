[package]
name = "ball_pickup"
version = "0.1.0"
edition = "2021"
publish = false

[dependencies]
bevy = { version = "0.10", default-features = false, features = ["bevy_asset", "bevy_core_pipeline", "bevy_pbr", "bevy_render", "bevy_winit", "x11"] }
bevy_egui = { version = "0.20", default-features = false, features = ["default_fonts"] }
bevy_rapier3d = "0.21"
