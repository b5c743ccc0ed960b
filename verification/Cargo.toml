[package]
name = "vectorflow"
version = "0.1.0"
edition = "2021"
publish = false

[dependencies]
rand = "0.9"
log = "0.4"
yew = { version = "0.21", features = ["csr"] }
wasm-bindgen = "0.2"
wasm-bindgen-futures = "0.4"
js-sys = "0.3"
wasm-logger = "0.2"
web-sys = { version = "0.3", features = ["Window", "Document", "Element", "EventTarget", "Event", "HtmlCanvasElement", "CanvasRenderingContext2d", "ImageData", "Blob", "BlobPropertyBag", "BlobEvent", "HtmlAnchorElement", "HtmlImageElement", "HtmlInputElement", "InputEvent", "Url", "File", "FileList", "FileReader", "MediaRecorder", "MediaStream", "BeforeUnloadEvent"] }
