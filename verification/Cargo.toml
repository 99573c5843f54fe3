[package]
name = "poisson_webcam"
version = "0.1.0"
edition = "2021"
publish = false

[dependencies]
bytemuck = "=1.25.2"
env_logger = "=0.11.11"
faster_poisson = { version = "=1.3.0", features = ["gpu"] }
flume = "0.11"
wasm-bindgen = "=0.2.130"
wasm-bindgen-futures = "=0.4.80"
web-sys = { version = "=0.3.107", features = ["Document", "Element", "Event", "EventTarget", "HtmlCanvasElement", "HtmlInputElement", "HtmlVideoElement", "MediaDevices", "MediaStream", "MediaStreamConstraints", "Navigator", "Window"] }
wgpu = "26"
winit = "=0.29.15"
