[package]
name = "stensor"
version = "0.1.0"
edition = "2021"
publish = false

[dependencies]
bytemuck = { version = "=1.25.2", features = ["derive"] }
encase = "=0.12.1"
include_dir = "=0.7.4"
minislang = "=0.4.0"
nalgebra = "=0.34.2"
slang-hal = { version = "=0.4.0", features = ["derive", "runtime"] }
wgpu = "=27.0.1"
