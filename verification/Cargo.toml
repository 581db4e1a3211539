[package]
name = "crispy"
version = "0.1.0"
edition = "2021"
publish = false

[dependencies]
wgpu = "0.15"
winit = "0.28"
pollster = "0.3"
log = "0.4"
env_logger = "0.10"
nalgebra = "0.32"
