[package]
name = "conc_render"
version = "0.1.0"
edition = "2021"
publish = false

[dependencies]
wgpu = { version = "0.11", features = ["spirv"] }
bytemuck = { version = "1", features = ["derive"] }
cgmath = "0.18"
obj = "0.10"
pollster = "0.2"
raw-window-handle = "0.3"
sdl2 = { version = "0.34", features = ["raw-window-handle"] }
