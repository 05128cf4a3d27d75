[package]
name = "game_of_life"
version = "0.1.0"
edition = "2021"
publish = false

[dependencies]
gloo-timers = "0.2"
stylist = { version = "0.10", features = ["yew_integration"] }
wasm-bindgen = "0.2"
web-sys = { version = "0.3", features = ["Event", "EventTarget", "HtmlInputElement", "MouseEvent"] }
yew = "0.19"
