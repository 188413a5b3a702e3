[package]
name = "webgpu_scene"
version = "0.1.0"
edition = "2021"
publish = false

[dependencies]
bytemuck = "1"
wasm-bindgen = "=0.2.130"
web-sys = { version = "=0.3.107", features = ["Window", "Document", "Element", "HtmlElement", "HtmlCanvasElement", "HtmlInputElement", "HtmlSelectElement", "MouseEvent", "WheelEvent", "KeyboardEvent", "UiEvent", "InputEvent", "Event", "EventTarget", "Node", "Performance"] }
gloo = { version = "=0.11.0", default-features = false, features = ["utils"] }
glam = "=0.29.3"
log = "=0.4.35"
console_error_panic_hook = "=0.1.7"
wasm-logger = "=0.2.0"
