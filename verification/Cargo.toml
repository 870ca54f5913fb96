[package]
name = "wgpu_playaround"
version = "0.1.0"
edition = "2021"
publish = false

[dependencies]
anyhow = "*"
log = "*"
pollster = "*"
wgpu = "*"
winit = "*"
