[package]
name = "cardsheet"
version = "0.1.0"
edition = "2021"
publish = false

[dependencies]
printpdf = "0.8"
wasm-bindgen = "0.2"
js-sys = "0.3"
web-sys = { version = "0.3", features = ["console"] }
