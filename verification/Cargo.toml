[package]
name = "subscription"
version = "0.1.0"
edition = "2021"
publish = false

[dependencies]
js-sys = "*"
wasm-bindgen = "*"
web-sys = { version = "*", features = ["Event", "EventTarget", "Window"] }
