[package]
name = "instanced_draw"
version = "0.1.0"
edition = "2021"
publish = false

[dependencies]
anyhow = "*"
bytemuck = { version = "*", features = ["derive"] }
cgmath = "*"
image = { version = "*", default-features = false, features = ["png"] }
pollster = "*"
wgpu = "*"
winit = "*"
