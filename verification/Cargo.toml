[package]
name = "shape_tess"
version = "0.1.0"
edition = "2021"
publish = false

[dependencies]
bytemuck = "1"
lyon_tessellation = "=0.17.10"
bevy = { version = "=0.7.0", default-features = false, features = ["render"] }
