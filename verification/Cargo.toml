[package]
name = "orbital_fox"
version = "0.1.0"
edition = "2021"
publish = false

[dependencies]
bevy = { version = "0.15", default-features = false, features = ["bevy_render", "bevy_core_pipeline", "bevy_sprite", "bevy_text", "bevy_window"] }
bevy_rapier2d = { version = "0.28", default-features = false, features = ["dim2"] }
rand = "0.8"
