[package]
name = "dreamstack"
version = "0.1.0"
edition = "2021"
publish = false

[dependencies]
eframe = { version = "=0.37.0", default-features = false, features = ["default_fonts", "glow", "x11"] }
rhai = "=1.27.0"
serde = { version = "=1.0.229", features = ["derive"] }
serde_json = "=1.0.154"
tracing = "=0.1.44"
tracing-subscriber = { version = "0.3", features = ["env-filter"] }
wasm-bindgen = "=0.2.130"
web-sys = { version = "=0.3.107", features = ["Document", "Element", "HtmlCanvasElement", "Storage", "Window"] }
