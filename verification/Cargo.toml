[package]
name = "gpu_bvh"
version = "0.1.0"
edition = "2021"
publish = false

[dependencies]
wgpu = { version = "=30.0.1", features = ["noop"] }
bytemuck = { version = "=1.25.2", features = ["derive"] }
crossbeam = "=0.8.5"
itertools = "=0.15.0"
nalgebra = "=0.35.0"
pollster = "=1.0.1"
rand = "=0.10.3"
winit = "=0.30.13"
