[package]
name = "scene_objects"
version = "0.1.0"
edition = "2021"
publish = false

[dependencies]
bytemuck = "*"
glow = "*"
thiserror = "*"
