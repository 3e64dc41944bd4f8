[package]
name = "frame_engine"
version = "0.1.0"
edition = "2021"
publish = false

[dependencies]
gfx-hal = "0.2"
gfx-backend-vulkan = "0.2"
winit = "0.19"
log = "0.4"
env_logger = "0.6"
