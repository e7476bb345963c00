[package]
name = "gpu"
version = "0.1.0"
edition = "2021"
publish = false

[dependencies]
ash = "0.37"
anyhow = "1"
log = "0.4"
gltf = "1"
image = { version = "0.25", default-features = false, features = ["jpeg"] }
nalgebra = "0.33"
winit = { version = "0.30", default-features = false, features = ["x11", "rwh_06"] }
