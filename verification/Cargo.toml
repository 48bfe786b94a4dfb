[package]
name = "vectorcade_web"
version = "0.1.0"
edition = "2021"
publish = false

[dependencies]
console_error_panic_hook = "=0.1.7"
glam = "=0.34.1"
wasm-bindgen = "=0.2.129"
web-sys = { version = "=0.3.106", features = ["CanvasRenderingContext2d", "Document", "DomRect", "Element", "Event", "EventTarget", "HtmlCanvasElement", "HtmlSelectElement", "KeyboardEvent", "Window", "console"] }
yew = { version = "=0.21.0", features = ["csr"] }
