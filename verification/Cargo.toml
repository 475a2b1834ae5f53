[package]
name = "flappy"
version = "0.1.0"
edition = "2021"
publish = false

[dependencies]
rand = { version = "0.8", features = ["small_rng"] }
anyhow = "1"
bytemuck = { version = "1", features = ["derive"] }
console_error_panic_hook = "0.1"
console_log = "1"
js-sys = "0.3"
log = "0.4"
wasm-bindgen = "0.2"
wasm-bindgen-futures = "0.4"
web-sys = { version = "0.3", features = ["Window", "Document", "Element", "HtmlElement", "HtmlCanvasElement", "HtmlDivElement", "Node", "CssStyleDeclaration", "Event", "EventTarget", "KeyboardEvent", "MouseEvent", "PointerEvent", "TouchEvent", "Location", "Performance"] }
wgpu = "0.20"
