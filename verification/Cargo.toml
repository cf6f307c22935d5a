[package]
name = "iiif_viewer"
version = "0.1.0"
edition = "2021"
publish = false

[dependencies]
serde_json = "=1.0.151"
wasm-bindgen = "=0.2.129"
console_error_panic_hook = "=0.1.7"

[dependencies.web-sys]
version = "=0.3.106"
features = [
    "Element",
    "Document",
    "Window",
    "Node",
    "ElementCreationOptions",
    "HtmlImageElement",
    "HtmlCanvasElement",
    "MouseEvent",
    "DomTokenList",
    "console",
]
