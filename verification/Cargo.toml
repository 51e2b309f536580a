[package]
name = "bevy_graphics_interop"
version = "0.1.0"
edition = "2021"
publish = false

[dependencies]
android_system_properties = "0.1"
ash = "0.38"
bevy_app = "0.16"
bevy_ecs = "0.16"
bevy_render = "0.16"
thiserror = "2"
wgpu = "24"
