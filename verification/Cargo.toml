[package]
name = "renderflow"
version = "0.1.0"
edition = "2021"
publish = false

[dependencies]
bytemuck = { version = "*", features = ["derive"] }
env_logger = "*"
regex = "*"
which = "*"
wgpu = "*"
