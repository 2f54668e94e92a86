[package]
name = "vello_renderer"
version = "0.1.0"
edition = "2021"
publish = false

[dependencies]
i-slint-core = { version = "=1.14.1", features = ["unstable-wgpu-26", "shared-parley"] }
i-slint-common = { version = "=1.14.1", features = ["shared-fontique"] }
vello = "=0.6.0"
wgpu = "=26.0.1"
lyon_path = "=1.0.19"
wasm-bindgen = "0.2"
web-sys = { version = "0.3", features = ["CanvasRenderingContext2d", "Document", "Element", "HtmlCanvasElement", "HtmlImageElement", "ImageData", "Window"] }
