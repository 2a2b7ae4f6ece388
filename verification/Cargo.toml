[package]
name = "scrapper"
version = "0.1.0"
edition = "2021"
publish = false

[dependencies]
wasm-bindgen = "*"
wasm-bindgen-futures = "*"
js-sys = "*"
web-sys = { version = "*", features = ["console"] }
console_error_panic_hook = "*"
reqwest = { version = "*", default-features = false }
