[package]
name = "wgpu_circles"
version = "0.1.0"
edition = "2021"
publish = false

[dependencies]
bytemuck = "1"
env_logger = "0.11"
pollster = "0.4"
wgpu = { version = "29", default-features = false, features = ["std", "wgsl", "dx12"] }
winit = { version = "0.30", default-features = false, features = ["rwh_06", "x11"] }
