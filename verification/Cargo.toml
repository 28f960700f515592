[package]
name = "egui_glow"
version = "0.1.0"
edition = "2021"
publish = false

[dependencies]
bytemuck = "1.7"
egui = { version = "0.19", default-features = false, features = ["bytemuck"] }
glow = "0.11"
memoffset = "0.6"
tracing = "0.1"
