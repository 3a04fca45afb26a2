[package]
name = "image_compare"
version = "0.1.0"
edition = "2021"
publish = false

[dependencies]
egui = "*"
eframe = { version = "*", default-features = false, features = ["glow", "default_fonts", "x11"] }
wasm-bindgen = "0.2"
wasm-bindgen-futures = "0.4"
js-sys = "0.3"
log = "0.4"
web-sys = { version = "0.3", features = ["Window", "Document", "Element", "HtmlElement", "HtmlCanvasElement", "HtmlInputElement", "HtmlAnchorElement", "CanvasRenderingContext2d", "ImageData", "ImageBitmap", "Blob", "Url", "File", "FileList", "ClipboardEvent", "DataTransfer", "DataTransferItemList", "DataTransferItem", "Event", "EventTarget", "CssStyleDeclaration", "Node"] }
