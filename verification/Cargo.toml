[package]
name = "vulkan_frames"
version = "0.1.0"
edition = "2021"
publish = false

[dependencies]
ash = "=0.37.3"
ash-window = "=0.10.0"
vk-mem = "=0.3.0"
winit = { version = "0.25", default-features = false, features = ["x11"] }
