[package]
name = "ves_host"
version = "0.1.0"
edition = "2021"
publish = false

[dependencies]
console_error_panic_hook = "=0.1.7"
futures = "=0.3.34"
js-sys = "=0.3.106"
wasm-bindgen = "=0.2.129"
wasm-bindgen-futures = "=0.4.79"
web-sys = { version = "=0.3.106", features = ["AudioBuffer", "AudioBufferSourceNode", "AudioContext", "AudioDestinationNode", "AudioNode", "AudioScheduledSourceNode", "BaseAudioContext", "CanvasRenderingContext2d", "Document", "Element", "EventTarget", "HtmlCanvasElement", "HtmlCollection", "HtmlElement", "HtmlInputElement", "Location", "Node", "Request", "Response", "Window"] }
