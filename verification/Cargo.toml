[package]
name = "vex_data"
version = "0.1.0"
edition = "2021"
publish = false

[dependencies]
log = "0.4"
serde = { version = "1", features = ["derive"] }
sycamore = "0.9"
tauri = { version = "2", default-features = false }
tauri-plugin-log = { version = "2", default-features = false }
ts-rs = "*"
wasm-bindgen = "0.2"
web-sys = { version = "0.3", features = ["console"] }
