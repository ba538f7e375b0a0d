[package]
name = "render_core"
version = "0.1.0"
edition = "2021"
publish = false

[dependencies]
glam = { version = "0.24", features = ["bytemuck"] }
bytemuck = "1"
wgpu = "0.14"
winit = "0.27"
pollster = "0.2"
clap = { version = "4", features = ["derive"] }
image = "0.24"
tracing = "0.1"
tracing-subscriber = "0.3"
