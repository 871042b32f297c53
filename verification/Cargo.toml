[package]
name = "incline_ui"
version = "0.1.0"
edition = "2021"
publish = false

[dependencies]
egui = "*"
egui_extras = { version = "*", features = ["svg"] }
egui-wgpu = "*"
egui-winit = { version = "*", default-features = false }
wgpu = "*"
winit = "*"
glam = "*"
strum = { version = "*", features = ["derive"] }
serde = { version = "*", features = ["derive"] }
log = "*"
