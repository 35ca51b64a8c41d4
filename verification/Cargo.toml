[package]
name = "rgba_transforms"
version = "0.1.0"
edition = "2021"
publish = false

[dependencies]
image = { version = "*", default-features = false }
wasm-bindgen = "*"
