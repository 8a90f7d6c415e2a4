[package]
name = "growforge"
version = "0.1.0"
edition = "2021"
publish = false

[dependencies]
anyhow = "1"
bytemuck = { version = "1", features = ["derive"] }
egui = "*"
egui-wgpu = "*"
pollster = "*"
rayon = "1"
wgpu = "*"
winit = "*"
