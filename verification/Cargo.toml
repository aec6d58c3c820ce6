[package]
name = "wgpu_engine"
version = "0.1.0"
edition = "2021"
publish = false

[dependencies]
wasm-bindgen = "*"
web-sys = { version = "*", features = ["console", "HtmlCanvasElement", "CanvasRenderingContext2d"] }
console_error_panic_hook = "*"
console_log = "*"
log = "*"
