[package]
name = "cubegrid"
version = "0.1.0"
edition = "2021"
publish = false

[dependencies]
bytemuck = { version = "1", features = ["derive"] }
cgmath = "0.18"
pollster = "0.3"
wgpu = "0.14"
winit = "0.27"
