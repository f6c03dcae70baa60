[package]
name = "stroke"
version = "0.2.0"
edition = "2021"
publish = false

[dependencies]
chrono = { version = "=0.4.45", features = ["serde", "wasmbind"] }
serde = { version = "=1.0.229", features = ["derive"] }
serde_json = "=1.0.154"
wasm-bindgen = "=0.2.130"
wasm-bindgen-futures = "=0.4.80"
js-sys = "=0.3.107"
web-sys = { version = "=0.3.107", features = ["Window", "Document", "Element", "EventTarget", "Event", "MouseEvent", "PointerEvent", "KeyboardEvent", "HtmlCanvasElement", "CanvasRenderingContext2d", "Performance", "DomRect"] }
