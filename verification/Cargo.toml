[package]
name = "voxel_shading"
version = "0.1.0"
edition = "2021"
publish = false

[dependencies]
ahash = "=0.8.12"
anyhow = "=1.0.104"
bytemuck = { version = "=1.25.2", features = ["derive"] }
cfg-if = "=1.0.5"
clap = { version = "=4.6.7", default-features = false, features = ["std", "derive", "help", "usage", "error-context"] }
e57 = "=0.11.13"
glam = "=0.27.0"
log = "=0.4.34"
pollster = "=0.3.0"
tobj = "=4.0.5"
wasm-bindgen = "=0.2.129"
wasm-bindgen-futures = "=0.4.79"
web-sys = { version = "=0.3.106", features = ["Document", "Element", "HtmlElement", "Node", "Window"] }
web-time = "=1.1.0"
wgpu = { version = "=0.20.1", default-features = false, features = ["wgsl", "spirv"] }
winit = { version = "0.30", default-features = false, features = ["rwh_06", "x11"] }
