[package]
name = "game_eng"
version = "0.1.0"
edition = "2021"
publish = false

[dependencies]
wgpu = "0.14"
winit = "=0.27.5"
pollster = "=0.2.5"
env_logger = "=0.9.3"
log = "=0.4.34"
bytemuck = { version = "=1.25.2", features = ["derive"] }
pyo3 = "=0.17.3"
