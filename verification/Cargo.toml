[package]
name = "scene_format"
version = "0.1.0"
edition = "2021"
publish = false

[dependencies]
serde_json = "1"
serde = { version = "1", features = ["derive"] }
prost = "*"
log = "0.4"
custom_error = "*"
