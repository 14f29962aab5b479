[package]
name = "transport_session"
version = "0.1.0"
edition = "2021"
publish = false

[dependencies]
bytes = "1"
console_error_panic_hook = "0.1"
wasm-bindgen = "0.2"
wasm-bindgen-futures = "0.4"
web-sys = { version = "0.3", features = ["console", "Document", "DomRect", "Element", "HtmlInputElement", "HtmlTextAreaElement", "Node", "WebTransport", "WebTransportOptions", "Window"] }
