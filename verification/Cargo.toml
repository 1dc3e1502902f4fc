[package]
name = "luminary"
version = "0.1.0"
edition = "2021"
publish = false

[dependencies]
ash = "0.38"
ash-window = "0.13"
bytemuck = { version = "1", features = ["derive"] }
color-eyre = "0.6"
eyre = "0.6"
glam = "0.29"
gpu-allocator = { version = "0.27", default-features = false, features = ["vulkan"] }
rustc-hash = "2"
tracing = "0.1"
tracing-subscriber = "0.3"
winit = { version = "0.30", default-features = false, features = ["rwh_06", "x11"] }
