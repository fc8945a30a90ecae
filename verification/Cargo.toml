[package]
name = "daedalus"
version = "0.1.0"
edition = "2021"
publish = false

[dependencies]
anyhow = "1"
bytemuck = "1"
dotenv = "0.15"
env_logger = "0.11"
glam = { version = "0.30", features = ["bytemuck"] }
log = "0.4"
pollster = "0.4"
wgpu = "25"
winit = "0.30"
