[package]
name = "viewer3d"
version = "0.1.0"
edition = "2021"
publish = false

[dependencies]
anyhow = "*"
clap = { version = "*", features = ["derive"] }
egui = "*"
egui-wgpu = "*"
egui-winit = "*"
tokio = { version = "*", features = ["rt", "rt-multi-thread"] }
tracing = "*"
tracing-subscriber = "*"
wgpu = "*"
winit = "*"
