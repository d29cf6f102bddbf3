[package]
name = "human"
version = "0.2.0"
edition = "2021"
publish = false

[dependencies]
stick = "0.11"
wasm-bindgen = "0.2"
web-sys = { version = "0.3", features = ["AddEventListenerOptions", "Document", "Element", "Event", "EventTarget", "HtmlCollection", "HtmlElement", "HtmlInputElement", "InputEvent", "KeyboardEvent", "MouseEvent", "Node", "UiEvent", "WheelEvent", "Window"] }
