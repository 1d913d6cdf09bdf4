[package]
name = "render_core"
version = "0.1.0"
edition = "2021"
publish = false

[dependencies]
bytemuck = { version = "1", features = ["derive"] }
env_logger = "0.11"
glam = { version = "0.30", features = ["bytemuck"] }
pollster = "0.4"
wgpu = "27"
winit = "0.30"
