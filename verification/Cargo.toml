[package]
name = "tri_render"
version = "0.1.0"
edition = "2021"
publish = false

[dependencies]
anyhow = "1"
bytemuck = { version = "1", features = ["derive"] }
pollster = "0.3"
wgpu = "22"
winit = "0.30"
