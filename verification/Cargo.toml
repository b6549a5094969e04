[package]
name = "zilog_silicon"
version = "1.0.0"
edition = "2021"
publish = false

[dependencies]
image = { version = "0.25", default-features = false, features = ["png"] }
egui = "0.33"
egui-wgpu = "0.33"
egui-sdl2-event = "*"
wgpu = "27"
sdl2 = { version = "0.38", features = ["raw-window-handle"] }
pollster = "0.4"
bytemuck = { version = "1", features = ["derive"] }
rfd = "0.15"
