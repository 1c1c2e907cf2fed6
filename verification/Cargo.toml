[package]
name = "life_game"
version = "0.1.0"
edition = "2021"
publish = false

[dependencies]
bytemuck = { version = "=1.25.2", features = ["derive"] }
chrono = "=0.4.45"
eframe = { version = "=0.37.0", default-features = false, features = ["wgpu", "persistence", "default_fonts", "x11"] }
egui = "=0.37.0"
egui-wgpu = "=0.37.0"
log = "=0.4.35"
serde = { version = "=1.0.229", features = ["derive"] }
wasm-bindgen = "=0.2.130"
wasm-bindgen-futures = "=0.4.80"
web-sys = { version = "=0.3.107", features = ["Window", "Document", "Element", "HtmlCanvasElement"] }
wgpu = "=30.0.1"
