[package]
name = "egui_glfw_gl"
version = "0.1.0"
edition = "2021"
publish = false

[dependencies]
egui = { version = "0.19", default-features = false }
gl = "0.14"
glfw = { version = "0.45", default-features = false }
