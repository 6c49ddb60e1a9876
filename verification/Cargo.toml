[package]
name = "raytracer"
version = "0.1.0"
edition = "2021"
publish = false

[dependencies]
bytemuck = { version = "1", features = ["derive"] }
hw-skymodel = "0.1"
image = { version = "0.24", default-features = false, features = ["jpeg", "png"] }
imgui = "0.11"
imgui-wgpu = "0.24"
nalgebra-glm = "0.18"
num = "0.4"
rand = "0.8"
thiserror = "1"
wgpu = "0.17"
