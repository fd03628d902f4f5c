[package]
name = "mesh_debug_draw"
version = "0.1.0"
edition = "2021"
publish = false

[dependencies]
glam = "=0.27.0"
egui = "=0.27.2"
rfd = { version = "=0.14.1", default-features = false, features = ["xdg-portal", "async-std"] }
