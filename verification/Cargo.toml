[package]
name = "shadertoy_host"
version = "0.1.0"
edition = "2021"
publish = false

[dependencies]
bytemuck = "1"
futures = "0.3"
glam = "0.29"
ouroboros = "0.18"
wgpu = { version = "23", features = ["spirv"] }
winit = "0.31.0-beta.1"
