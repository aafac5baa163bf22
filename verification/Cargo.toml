[package]
name = "hello_triangle"
version = "0.1.0"
edition = "2021"
publish = false

[dependencies]
wgpu = "0.13"
winit = { version = "0.27", default-features = false, features = ["x11"] }
pollster = "0.3"
bytemuck = { version = "1", features = ["derive"] }
