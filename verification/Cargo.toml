[package]
name = "topdown_physics"
version = "0.1.0"
edition = "2021"
publish = false

[dependencies]
bevy = { version = "0.9", default-features = false, features = ["bevy_asset", "bevy_render", "bevy_sprite", "bevy_core_pipeline", "bevy_winit", "png", "x11"] }
bevy_ecs_ldtk = "0.5"
bevy-inspector-egui = { version = "0.14", default-features = false }
bevy_pixel_camera = "0.3"
rand = "0.8"
