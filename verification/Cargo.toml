[package]
name = "slime_mould"
version = "0.1.0"
edition = "2021"
publish = false

[dependencies]
bytemuck = { version = "1", features = ["derive"] }
image = { version = "0.23", default-features = false, features = ["png"] }
naga = { version = "0.7", features = ["wgsl-in"] }
notify = "4"
pollster = "0.2"
rand = "0.8"
wgpu = "0.11"
winit = "0.25"
workerpool = "1.2"
