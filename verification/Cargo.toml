[package]
name = "gpu_bench"
version = "0.1.0"
edition = "2021"
publish = false

[dependencies]
bytemuck = { version = "=1.25.2", features = ["derive", "extern_crate_alloc"] }
rand = "=0.8.8"
wgpu = { version = "=0.19.4", default-features = false, features = ["wgsl"] }
winit = { version = "0.30", default-features = false, features = ["rwh_06", "x11"] }
pollster = "=0.3.0"
env_logger = { version = "=0.10.2", default-features = false }
