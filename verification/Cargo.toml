[package]
name = "canvas_bridge"
version = "0.1.0"
edition = "2021"
publish = false

[dependencies]
log = "0.4"
wasm-bindgen = "0.2"
web-sys = { version = "0.3", features = [
    "Window",
    "Document",
    "Element",
    "HtmlElement",
    "HtmlCanvasElement",
    "CssStyleDeclaration",
    "EventTarget",
    "Event",
    "MouseEvent",
    "KeyboardEvent",
    "DomRect",
] }
