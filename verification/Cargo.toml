[package]
name = "render_core"
version = "0.1.0"
edition = "2021"
publish = false

[dependencies]
wgpu = "0.15"
winit = "0.28"
tokio = { version = "1", features = ["macros", "rt-multi-thread"] }
