[package]
name = "route_persist"
version = "0.1.0"
edition = "2021"
publish = false

[dependencies]
console_error_panic_hook = "*"
gloo-storage = "*"
serde = { version = "*", features = ["derive"] }
wasm-bindgen = "*"
web-sys = { version = "*", features = ["Window", "Location", "Event", "EventTarget", "console"] }
yew = { version = "*", features = ["csr"] }
yew-router = "*"
