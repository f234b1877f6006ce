[package]
name = "skybox_pipeline"
version = "0.1.0"
edition = "2021"
publish = false

[dependencies]
bevy_app = "=0.16.1"
bevy_asset = "=0.16.1"
bevy_ecs = "=0.16.1"
bevy_image = "=0.16.1"
bevy_math = "=0.16.1"
bevy_reflect = "=0.16.1"
bevy_render = "=0.16.1"
bevy_transform = "=0.16.1"
encase = { version = "=0.10.0", features = ["glam"] }
