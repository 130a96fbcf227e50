[package]
name = "triframe"
version = "0.1.0"
edition = "2021"
publish = false

[dependencies]
anyhow = "*"
bytemuck = "*"
env_logger = "*"
futures = "*"
glam = "*"
log = "*"
pollster = "*"
wgpu = "*"
winit = "*"
