[package]
name = "smaa"
version = "0.1.0"
edition = "2021"
publish = false

[dependencies]
wgpu = { version = "*", features = ["spirv"] }
naga = { version = "*", features = ["glsl-in", "spv-out"] }
