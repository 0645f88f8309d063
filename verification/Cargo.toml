[package]
name = "ray_tracer"
version = "0.1.0"
edition = "2021"
publish = false

[dependencies]
egui = "=0.20.1"
egui_glium = { version = "=0.20.1", default-features = false }
glium = "=0.32.1"
image = { version = "=0.24.9", default-features = false }
nalgebra = "=0.32.6"
rayon = "=1.12.0"
rfd = "0.14"
serde = { version = "=1.0.229", features = ["derive"] }
serde_json = "=1.0.154"
