[package]
name = "emulator"
version = "0.1.0"
edition = "2021"
publish = false

[dependencies]
sdl2 = { version = "*", features = ["mixer"] }
wasm-bindgen = "*"
wasm-bindgen-futures = "*"
js-sys = "*"
web-sys = { version = "*", features = ["Window", "Document", "Element", "Node", "EventTarget", "Event", "KeyboardEvent", "HtmlElement", "HtmlCanvasElement", "CanvasRenderingContext2d", "HtmlMediaElement", "HtmlAudioElement", "Request", "RequestInit", "RequestMode", "Response"] }
