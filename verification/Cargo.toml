[package]
name = "bevy_heightmap"
version = "0.1.0"
edition = "2021"
publish = false

[dependencies]
bevy = { version = "0.16", default-features = false, features = ["bevy_asset", "bevy_render", "bevy_state"] }
bevy_app = "0.16"
bevy_asset = "0.16"
bevy_ecs = "0.16"
bevy_image = { version = "0.16", features = ["png"] }
bevy_math = "0.16"
bevy_render = "0.16"
bevy_state = "0.16"
bytemuck = "1"
image = { version = "0.25", default-features = false, features = ["png"] }
thiserror = "2"
