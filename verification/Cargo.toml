[package]
name = "oriterm"
version = "0.1.0"
edition = "2021"
publish = false

[dependencies]
winit = "=0.30.13"
wgpu = "=30.0.1"
pollster = "0.4"
