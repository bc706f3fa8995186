[package]
name = "fy_canvas"
version = "0.1.0"
edition = "2021"
publish = false

[dependencies]
wasm-bindgen = "0.2"
web-sys = { version = "0.3", features = ["Blob", "CanvasRenderingContext2d", "Document", "Element", "Event", "EventTarget", "File", "FileList", "FileReader", "HtmlCanvasElement", "HtmlElement", "HtmlImageElement", "HtmlInputElement", "MouseEvent", "Node", "Window"] }
