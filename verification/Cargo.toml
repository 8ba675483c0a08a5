[package]
name = "bevy_simple_water"
version = "0.1.0"
edition = "2021"
publish = false

[dependencies]
bevy_app = "0.18"
bevy_asset = "0.18"
bevy_color = "0.18"
bevy_ecs = "0.18"
bevy_image = "0.18"
bevy_math = "0.18"
bevy_pbr = "0.18"
bevy_reflect = "0.18"
bevy_render = "0.18"
bevy_shader = "0.18"
bevy_utils = "0.18"
