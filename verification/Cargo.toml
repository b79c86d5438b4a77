[package]
name = "precompiled_shaders"
version = "0.1.0"
edition = "2021"
publish = false

[dependencies]
bevy_asset = { version = "=0.19.1", default-features = false }
bevy_shader = { version = "=0.19.1", default-features = false }
bevy_tasks = "=0.19.1"
tracing = { version = "=0.1.44", default-features = false, features = ["std"] }
wgpu = { version = "=30.0.1", default-features = false, features = ["std"] }
