[package]
name = "render_core"
version = "0.1.0"
edition = "2021"
publish = false

[dependencies]
wgpu = "*"
glam = { version = "*", features = ["bytemuck"] }
image = { version = "*", default-features = false, features = ["png"] }
bytemuck = "*"
winit = "*"
pollster = "*"
anyhow = "*"
tobj = "*"
