[package]
name = "vox"
version = "0.1.0"
edition = "2021"
publish = false

[dependencies]
bytemuck = { version = "1", features = ["derive"] }
glam = { version = "0.27", default-features = false, features = ["std"] }
winit = { version = "0.29", default-features = false, features = ["rwh_06", "x11"] }
